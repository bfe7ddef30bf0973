use anime_downloader::bypass::{
    bypass_step, parse_check_script, BypassAction, BypassEvent, BypassState,
};
use anime_downloader::errors::AnimeDownloaderError;

fn ok_response(body: &str) -> BypassEvent {
    BypassEvent::Response { ok: true, body: body.to_string() }
}

#[test]
fn check_script_fragments_parse() {
    let (rel, verify) = parse_check_script("a'one'b'three'rest").unwrap();
    assert_eq!(rel, "one");
    assert_eq!(verify, "three");

    let body = "go('/site.js');check('https://check.example/verify');done('x')";
    let (rel, verify) = parse_check_script(body).unwrap();
    assert_eq!(rel, "/site.js");
    assert_eq!(verify, "https://check.example/verify");
}

#[test]
fn short_check_script_is_a_parsing_error() {
    let err = parse_check_script("no fragments here").unwrap_err();
    assert!(matches!(err, AnimeDownloaderError::ParsingError(_)));
    let err2 = parse_check_script("only'two").unwrap_err();
    assert!(matches!(err2, AnimeDownloaderError::ParsingError(_)));
}

#[test]
fn protocol_walks_the_fixed_sequence() {
    let base = "https://animepahe.ru";

    let (action, state) = bypass_step(BypassState::Start, BypassEvent::Begin, base);
    match action {
        Some(BypassAction::Get(u)) => assert_eq!(u, "https://check.ddos-guard.net/check.js"),
        _ => panic!("expected the check-script fetch"),
    }

    let body = "x'/site-path'y'https://check.example/verify'tail";
    let (action, state) = bypass_step(state, ok_response(body), base);
    match action {
        Some(BypassAction::Get(u)) => assert_eq!(u, "https://check.example/verify"),
        _ => panic!("expected the verification fetch"),
    }

    let (action, state) = bypass_step(state, ok_response(""), base);
    match action {
        Some(BypassAction::Get(u)) => assert_eq!(u, "https://animepahe.ru/site-path"),
        _ => panic!("expected the site-relative fetch"),
    }

    let (action, state) = bypass_step(state, ok_response(""), base);
    match action {
        Some(BypassAction::Post(u)) => {
            assert_eq!(u, "https://animepahe.ru/.well-known/ddos-guard/mark/")
        },
        _ => panic!("expected the mark post"),
    }

    let (action, state) = bypass_step(state, ok_response(""), base);
    assert!(matches!(action, Some(BypassAction::PersistSession)));
    assert!(matches!(state, BypassState::Done));

    // A finished protocol ignores further events.
    let (action, state) = bypass_step(state, ok_response(""), base);
    assert!(action.is_none());
    assert!(matches!(state, BypassState::Done));
}

#[test]
fn blocked_check_response_fails_the_protocol() {
    let base = "https://animepahe.ru";
    let (_, state) = bypass_step(BypassState::Start, BypassEvent::Begin, base);
    let blocked = BypassEvent::Response { ok: false, body: String::new() };
    let (action, state) = bypass_step(state, blocked, base);
    assert!(action.is_none());
    match state {
        BypassState::Failed(AnimeDownloaderError::NetworkError(m)) => {
            assert_eq!(m, "Failed to bypass protection")
        },
        _ => panic!("expected a network failure"),
    }
}

#[test]
fn short_check_body_fails_the_protocol() {
    let base = "https://animepahe.ru";
    let (_, state) = bypass_step(BypassState::Start, BypassEvent::Begin, base);
    let (action, state) = bypass_step(state, ok_response("nothing split here"), base);
    assert!(action.is_none());
    assert!(matches!(state, BypassState::Failed(AnimeDownloaderError::ParsingError(_))));
}
