use vstd::prelude::*;
use vstd::string::StringExecFns;

use crate::errors::AnimeDownloaderError;
use crate::extract::{split_char, split_rec};

verus! {

/// Parses the body of the check script: a delimiter-split sequence of
/// literal fragments, of which fragment 1 is a site-relative path and
/// fragment 3 is a verification URL.  Fewer than 4 fragments is a
/// parsing error.
pub fn parse_check_script(body: &str) -> (r: Result<(String, String), AnimeDownloaderError>)
    ensures
        ({
            let parts = split_rec(body@, '\'', Seq::empty());
            &&& parts.len() >= 4 ==> r is Ok && r->Ok_0.0@ == parts[1] && r->Ok_0.1@ == parts[3]
            &&& parts.len() < 4 ==> r is Err && (r->Err_0 matches
                AnimeDownloaderError::ParsingError(m)
                && m@ == "check script has fewer than 4 fragments"@)
        }),
{
    let parts = split_char(body, '\'');
    proof {
        assert(parts@.len() == parts.deep_view().len());
        assert(forall|i: int| 0 <= i < parts@.len() ==> parts@[i]@ == parts.deep_view()[i]);
    }
    if parts.len() >= 4 {
        Ok((parts[1].clone(), parts[3].clone()))
    } else {
        Err(
            AnimeDownloaderError::ParsingError(
                "check script has fewer than 4 fragments".to_owned(),
            ),
        )
    }
}

/// One request the challenge protocol asks its driver to make; the
/// opaque mark payload is supplied by the driver's configuration.
pub enum BypassAction {
    Get(String),
    Post(String),
    PersistSession,
}

/// Where the challenge protocol stands.
pub enum BypassState {
    Start,
    AwaitCheckScript,
    AwaitVerify { base_path: String },
    AwaitBasePath,
    AwaitMark,
    Done,
    Failed(AnimeDownloaderError),
}

/// What the driver hands back: the start signal, or the outcome of the
/// last requested exchange.
pub enum BypassEvent {
    Begin,
    Response { ok: bool, body: String },
}

/// The transition relation of the challenge protocol: fetch the check
/// script; on a good response split it and visit the verification URL,
/// then the site-relative path, then post the mark; then persist the
/// session.  A bad check response or a short fragment list fails the
/// protocol; a finished or failed protocol ignores further events, as
/// does an event that does not answer the current state.
pub open spec fn bypass_step_ok(
    s: BypassState,
    e: BypassEvent,
    base: Seq<char>,
    r: (Option<BypassAction>, BypassState),
) -> bool {
    match (s, e) {
        (BypassState::Start, BypassEvent::Begin) => {
            &&& r.0 matches Some(BypassAction::Get(u)) && u@
                == "https://check.ddos-guard.net/check.js"@
            &&& r.1 is AwaitCheckScript
        },
        (BypassState::AwaitCheckScript, BypassEvent::Response { ok, body }) => {
            if !ok {
                &&& r.0 is None
                &&& r.1 matches BypassState::Failed(er) && (er matches
                    AnimeDownloaderError::NetworkError(m) && m@ == "Failed to bypass protection"@)
            } else {
                let parts = split_rec(body@, '\'', Seq::empty());
                if parts.len() < 4 {
                    &&& r.0 is None
                    &&& r.1 matches BypassState::Failed(er) && er is ParsingError
                } else {
                    &&& r.0 matches Some(BypassAction::Get(u)) && u@ == parts[3]
                    &&& r.1 matches BypassState::AwaitVerify { base_path } && base_path@
                        == parts[1]
                }
            }
        },
        (BypassState::AwaitVerify { base_path }, BypassEvent::Response { .. }) => {
            &&& r.0 matches Some(BypassAction::Get(u)) && u@ == base + base_path@
            &&& r.1 is AwaitBasePath
        },
        (BypassState::AwaitBasePath, BypassEvent::Response { .. }) => {
            &&& r.0 matches Some(BypassAction::Post(u)) && u@ == base
                + "/.well-known/ddos-guard/mark/"@
            &&& r.1 is AwaitMark
        },
        (BypassState::AwaitMark, BypassEvent::Response { .. }) => {
            &&& r.0 matches Some(BypassAction::PersistSession)
            &&& r.1 is Done
        },
        (s2, _) => r.0 is None && r.1 == s2,
    }
}

/// Advances the challenge protocol by one event, returning the next
/// request to perform (if any) and the next state.
pub fn bypass_step(state: BypassState, event: BypassEvent, base_url: &str) -> (r: (
    Option<BypassAction>,
    BypassState,
))
    ensures
        bypass_step_ok(state, event, base_url@, r),
{
    match (state, event) {
        (BypassState::Start, BypassEvent::Begin) => (
            Some(BypassAction::Get("https://check.ddos-guard.net/check.js".to_owned())),
            BypassState::AwaitCheckScript,
        ),
        (BypassState::AwaitCheckScript, BypassEvent::Response { ok, body }) => {
            if !ok {
                (
                    None,
                    BypassState::Failed(
                        AnimeDownloaderError::NetworkError("Failed to bypass protection".to_owned()),
                    ),
                )
            } else {
                match parse_check_script(body.as_str()) {
                    Ok((base_path, verify_url)) => (
                        Some(BypassAction::Get(verify_url)),
                        BypassState::AwaitVerify { base_path },
                    ),
                    Err(e) => (None, BypassState::Failed(e)),
                }
            }
        },
        (BypassState::AwaitVerify { base_path }, BypassEvent::Response { .. }) => (
            Some(BypassAction::Get(base_url.to_owned().concat(base_path.as_str()))),
            BypassState::AwaitBasePath,
        ),
        (BypassState::AwaitBasePath, BypassEvent::Response { .. }) => (
            Some(BypassAction::Post(base_url.to_owned().concat("/.well-known/ddos-guard/mark/"))),
            BypassState::AwaitMark,
        ),
        (BypassState::AwaitMark, BypassEvent::Response { .. }) => (
            Some(BypassAction::PersistSession),
            BypassState::Done,
        ),
        (s2, _) => (None, s2),
    }
}

} // verus!
