use vstd::prelude::*;
use vstd::string::StringExecFns;

use crate::cipher::{decrypt, spec_decrypt};
use crate::errors::AnimeDownloaderError;
use crate::extract::{
    find_cipher_call_captures, find_field, find_field_from, find_kwik_from, find_kwik_link,
    find_label_from, find_params_from, find_quality_label,
};
use crate::quality::{canonical_tier, parses_to, rank_spec, Quality};
use crate::strutil::{chars_of, lower, numeral_value, parse_u64_digits};

verus! {

/// One downloadable rendition: a source-URL candidate paired with its
/// quality tier.
#[derive(Debug, Clone)]
pub struct Rendition {
    pub url: String,
    pub quality: Quality,
}

impl Rendition {
    /// An equal copy of this rendition.
    pub fn duplicate(&self) -> (r: Self)
        ensures
            r == *self,
    {
        Rendition { url: self.url.clone(), quality: self.quality.duplicate() }
    }
}

/// Whether a label names exactly the preferred 1080p tier.
pub open spec fn is_1080_label(l: Seq<char>) -> bool {
    canonical_tier(lower(l)) == Some(Quality::P1080)
}

/// The selection rank a label carries.
pub open spec fn label_rank(l: Seq<char>) -> int {
    match canonical_tier(lower(l)) {
        Some(t) => rank_spec(&t),
        None => 0,
    }
}

/// A parsed label's tier determines its rank and whether it is 1080p.
pub proof fn lemma_parses_rank(l: Seq<char>, q: Quality)
    requires
        parses_to(l, q),
    ensures
        rank_spec(&q) == label_rank(l),
        (q matches Quality::P1080) <==> is_1080_label(l),
{
}

/// Selection policy over a candidate set: an empty set is a
/// quality-not-found error; a set with a 1080p-tier candidate yields its
/// first such candidate in document order; any other set yields its
/// first highest-ranked candidate.
pub fn select_quality(cands: &Vec<Rendition>, episode_number: &str) -> (r: Result<
    Rendition,
    AnimeDownloaderError,
>)
    ensures
        (cands@.len() == 0) <==> r is Err,
        r is Err ==> (r->Err_0 matches AnimeDownloaderError::QualityNotFound(m)
            && m@ == "No qualities found for episode "@ + episode_number@),
        (exists|i: int| 0 <= i < cands@.len() && cands@[i].quality is P1080) ==> (r is Ok
            && exists|i: int|
            0 <= i < cands@.len() && cands@[i].quality is P1080 && (forall|k: int|
                0 <= k < i ==> !(cands@[k].quality is P1080)) && r->Ok_0 == cands@[i]),
        (cands@.len() > 0 && (forall|i: int|
            0 <= i < cands@.len() ==> !(cands@[i].quality is P1080))) ==> (r is Ok && exists|j: int|
            0 <= j < cands@.len() && r->Ok_0 == cands@[j] && (forall|k: int|
                0 <= k < cands@.len() ==> rank_spec(&cands@[k].quality) <= rank_spec(
                    &cands@[j].quality,
                )) && (forall|k: int|
                0 <= k < j ==> rank_spec(&cands@[k].quality) < rank_spec(&cands@[j].quality))),
{
    let n = cands.len();
    if n == 0 {
        return Err(
            AnimeDownloaderError::QualityNotFound(
                "No qualities found for episode ".to_owned().concat(episode_number),
            ),
        );
    }
    let mut i: usize = 0;
    while i < n
        invariant
            n == cands@.len(),
            i <= n,
            forall|k: int| 0 <= k < i ==> !(cands@[k].quality is P1080),
        decreases n - i,
    {
        if cands[i].quality.is_p1080() {
            return Ok(cands[i].duplicate());
        }
        i += 1;
    }
    let mut best: usize = 0;
    let mut best_rank: u32 = cands[0].quality.rank();
    let mut k: usize = 1;
    while k < n
        invariant
            n == cands@.len(),
            best < k <= n,
            best_rank as int == rank_spec(&cands@[best as int].quality),
            forall|t: int| 0 <= t < k ==> rank_spec(&cands@[t].quality) <= best_rank as int,
            forall|t: int| 0 <= t < best ==> rank_spec(&cands@[t].quality) < best_rank as int,
        decreases n - k,
    {
        let rk = cands[k].quality.rank();
        if rk > best_rank {
            best = k;
            best_rank = rk;
        }
        k += 1;
    }
    Ok(cands[best].duplicate())
}

/// The candidates among a page's download anchors: each anchor whose
/// caption carries a quality label contributes its link and that label,
/// in document order.
pub open spec fn cand_labels(anchors: Seq<(Seq<char>, Seq<char>)>) -> Seq<(Seq<char>, Seq<char>)>
    decreases anchors.len(),
{
    if anchors.len() == 0 {
        Seq::empty()
    } else {
        cand_labels(anchors.drop_last()) + (match find_label_from(anchors.last().1, 0) {
            Some((i, l)) => seq![(anchors.last().0, anchors.last().1.subrange(i, i + l))],
            None => Seq::empty(),
        })
    }
}

/// Relies on scraper's `Html::parse_document`, `Selector::parse` and
/// element selection: returns, for each anchor under the download picker
/// of the parsed page, its `href` attribute and its joined text children.
#[verifier::external_body]
fn select_download_anchors(html: &str) -> (r: Vec<(String, String)>)
    ensures
        r.deep_view() == download_anchors(html@),
{
    let document = scraper::Html::parse_document(html);
    let selector = match scraper::Selector::parse("div#pickDownload>a") {
        Ok(s) => s,
        Err(_) => return Vec::new(),
    };
    document.select(&selector).filter_map(|x| {
        let href = x.attr("href")?;
        let text = x.children().filter_map(|c| match c.value() {
            scraper::Node::Text(t) => Some(t.text.to_string()),
            _ => None,
        }).collect::<Vec<_>>().join(" ");
        Some((href.to_string(), text))
    }).collect()
}

pub uninterp spec fn download_anchors(page: Seq<char>) -> Seq<(Seq<char>, Seq<char>)>;

/// Enumerates the renditions a detail page offers and selects one by
/// policy: the first 1080p-tier candidate if any, else the first
/// highest-tier candidate; an empty candidate set is an error, never a
/// silent default.
pub fn resolve_renditions(html: &str, episode_number: &str) -> (r: Result<
    Rendition,
    AnimeDownloaderError,
>)
    ensures
        (cand_labels(download_anchors(html@)).len() == 0) <==> r is Err,
        r is Err ==> (r->Err_0 matches AnimeDownloaderError::QualityNotFound(m)
            && m@ == "No qualities found for episode "@ + episode_number@),
        ({
            let cs = cand_labels(download_anchors(html@));
            (exists|i: int| 0 <= i < cs.len() && is_1080_label(cs[i].1)) ==> (r is Ok && exists|
                i: int,
            |
                0 <= i < cs.len() && is_1080_label(cs[i].1) && (forall|k: int|
                    0 <= k < i ==> !is_1080_label(cs[k].1)) && r->Ok_0.url@ == cs[i].0
                    && parses_to(cs[i].1, r->Ok_0.quality))
        }),
        ({
            let cs = cand_labels(download_anchors(html@));
            (cs.len() > 0 && (forall|i: int| 0 <= i < cs.len() ==> !is_1080_label(cs[i].1))) ==> (
            r is Ok && exists|j: int|
                0 <= j < cs.len() && r->Ok_0.url@ == cs[j].0 && parses_to(cs[j].1, r->Ok_0.quality)
                    && (forall|k: int| 0 <= k < cs.len() ==> label_rank(cs[k].1) <= label_rank(
                    cs[j].1,
                )) && (forall|k: int| 0 <= k < j ==> label_rank(cs[k].1) < label_rank(cs[j].1)))
        }),
{
    let anchors = select_download_anchors(html);
    let ghost av = anchors.deep_view();
    let mut cands: Vec<Rendition> = Vec::new();
    let mut idx: usize = 0;
    proof {
        assert(av.take(0) =~= Seq::<(Seq<char>, Seq<char>)>::empty());
    }
    while idx < anchors.len()
        invariant
            av == anchors.deep_view(),
            av == download_anchors(html@),
            av.len() == anchors@.len(),
            forall|j: int| 0 <= j < av.len() ==> av[j] == (anchors@[j].0@, anchors@[j].1@),
            idx <= anchors@.len(),
            cands@.len() == cand_labels(av.take(idx as int)).len(),
            forall|j: int|
                0 <= j < cands@.len() ==> cands@[j].url@ == cand_labels(av.take(idx as int))[j].0
                    && parses_to(cand_labels(av.take(idx as int))[j].1, cands@[j].quality),
        decreases anchors@.len() - idx,
    {
        proof {
            assert(av.take(idx + 1).drop_last() =~= av.take(idx as int));
            assert(av.take(idx + 1).last() == av[idx as int]);
        }
        let text: &String = &anchors[idx].1;
        match find_quality_label(text.as_str()) {
            Some(lab) => {
                let q = Quality::from_str(lab.as_str());
                let url = anchors[idx].0.clone();
                cands.push(Rendition { url, quality: q });
            },
            None => {},
        }
        idx += 1;
    }
    proof {
        assert(av.take(anchors@.len() as int) =~= av);
    }
    let r = select_quality(&cands, episode_number);
    proof {
        let cs = cand_labels(download_anchors(html@));
        assert(cs == cand_labels(av.take(idx as int)));
        assert(cands@.len() == cs.len());
        assert forall|j: int| 0 <= j < cands@.len() implies cands@[j].url@ == cs[j].0
            && parses_to(cs[j].1, cands@[j].quality) by {}
        if exists|i: int| 0 <= i < cs.len() && is_1080_label(cs[i].1) {
            let i0 = choose|i: int| 0 <= i < cs.len() && is_1080_label(cs[i].1);
            lemma_parses_rank(cs[i0].1, cands@[i0].quality);
            assert(0 <= i0 < cands@.len() && cands@[i0].quality is P1080);
            let j0 = choose|j: int|
                0 <= j < cands@.len() && cands@[j].quality is P1080 && (forall|k: int|
                    0 <= k < j ==> !(cands@[k].quality is P1080)) && r->Ok_0 == cands@[j];
            lemma_parses_rank(cs[j0].1, cands@[j0].quality);
            assert forall|k: int| 0 <= k < j0 implies !is_1080_label(cs[k].1) by {
                lemma_parses_rank(cs[k].1, cands@[k].quality);
            }
            assert(0 <= j0 < cs.len() && is_1080_label(cs[j0].1) && (forall|k: int|
                0 <= k < j0 ==> !is_1080_label(cs[k].1)) && r->Ok_0.url@ == cs[j0].0 && parses_to(
                cs[j0].1,
                r->Ok_0.quality,
            ));
        } else if cs.len() > 0 {
            assert forall|k: int| 0 <= k < cands@.len() implies !(cands@[k].quality is P1080) by {
                lemma_parses_rank(cs[k].1, cands@[k].quality);
            }
            let j0 = choose|j: int|
                0 <= j < cands@.len() && r->Ok_0 == cands@[j] && (forall|k: int|
                    0 <= k < cands@.len() ==> rank_spec(&cands@[k].quality) <= rank_spec(
                        &cands@[j].quality,
                    )) && (forall|k: int|
                    0 <= k < j ==> rank_spec(&cands@[k].quality) < rank_spec(&cands@[j].quality));
            lemma_parses_rank(cs[j0].1, cands@[j0].quality);
            assert forall|k: int| 0 <= k < cs.len() implies label_rank(cs[k].1) <= label_rank(
                cs[j0].1,
            ) by {
                lemma_parses_rank(cs[k].1, cands@[k].quality);
            }
            assert forall|k: int| 0 <= k < j0 implies label_rank(cs[k].1) < label_rank(
                cs[j0].1,
            ) by {
                lemma_parses_rank(cs[k].1, cands@[k].quality);
            }
            assert(0 <= j0 < cs.len() && r->Ok_0.url@ == cs[j0].0 && parses_to(
                cs[j0].1,
                r->Ok_0.quality,
            ) && (forall|k: int| 0 <= k < cs.len() ==> label_rank(cs[k].1) <= label_rank(
                cs[j0].1,
            )) && (forall|k: int| 0 <= k < j0 ==> label_rank(cs[k].1) < label_rank(cs[j0].1)));
        }
    }
    r
}

pub uninterp spec fn play_page_script(page: Seq<char>) -> Option<Seq<char>>;

/// Relies on scraper's HTML parser and selectors: returns the inner text
/// of the fixed script element of the play page, when that element is
/// present.
#[verifier::external_body]
fn nth_head_script(html: &str) -> (r: Option<String>)
    ensures
        r is Some <==> play_page_script(html@) is Some,
        r is Some ==> r->Some_0@ == play_page_script(html@)->Some_0,
{
    let document = scraper::Html::parse_document(html);
    let selector = match scraper::Selector::parse("head > script:nth-child(24)") {
        Ok(s) => s,
        Err(_) => return None,
    };
    document.select(&selector).next().map(|x| x.inner_html())
}

/// Locates the engine-page link inside the play page: the fixed script
/// element must be present and must embed a link; each absence is its own
/// extraction error.
pub fn extract_kwik_link(html: &str) -> (r: Result<String, AnimeDownloaderError>)
    ensures
        match play_page_script(html@) {
            None => r is Err && (r->Err_0 matches AnimeDownloaderError::ExtractorError(m)
                && m@ == "Could not find the script tag"@),
            Some(js) => match find_kwik_from(js, 0) {
                None => r is Err && (r->Err_0 matches AnimeDownloaderError::ExtractorError(m)
                    && m@ == "Could not find the kwik link"@),
                Some(cap) => r is Ok && r->Ok_0@ == cap,
            },
        },
{
    match nth_head_script(html) {
        None => Err(AnimeDownloaderError::ExtractorError("Could not find the script tag".to_owned())),
        Some(js) => match find_kwik_link(js.as_str()) {
            None => Err(
                AnimeDownloaderError::ExtractorError("Could not find the kwik link".to_owned()),
            ),
            Some(link) => Ok(link),
        },
    }
}

/// The decoded redirect form: its action URL and its submission token.
#[derive(Debug, Clone)]
pub struct RedirectForm {
    pub url: String,
    pub token: String,
}

/// What form recovery yields on a page: the leftmost obfuscated call is
/// decoded, and the hidden form's `action` and `value` attributes are
/// read out of the decoded fragment.  `None` stands for each missing
/// piece.
pub open spec fn spec_recover_form(page: Seq<char>) -> Option<(Seq<char>, Seq<char>)> {
    match find_params_from(page, 0) {
        None => None,
        Some((p, k, a, b)) => {
            if numeral_value(a, 10) > 0x7FFF_FFFF || numeral_value(b, 10) > usize::MAX {
                None
            } else {
                match spec_decrypt(p, k, numeral_value(a, 10) as u32, numeral_value(b, 10) as usize) {
                    None => None,
                    Some(d) => match find_field_from(d, "action=\""@, 0) {
                        None => None,
                        Some(u) => match find_field_from(d, "value=\""@, 0) {
                            None => None,
                            Some(t) => Some((u, t)),
                        },
                    },
                }
            }
        },
    }
}

/// Recovers the hidden redirect form from the engine page: finds the
/// obfuscated call, reverses the cipher, and reads the form's action URL
/// and token.  Every structural mismatch is a parsing error, never a
/// crash.
pub fn recover_redirect_form(html: &str) -> (r: Result<RedirectForm, AnimeDownloaderError>)
    ensures
        match spec_recover_form(html@) {
            Some((u, t)) => r is Ok && r->Ok_0.url@ == u && r->Ok_0.token@ == t,
            None => r is Err && r->Err_0 is ParsingError,
        },
        ({
            match find_params_from(html@, 0) {
                None => r matches Err(AnimeDownloaderError::ParsingError(m)) && m@
                    == "Could not find encryption parameters"@,
                Some((p, k, a, b)) => {
                    if numeral_value(a, 10) > 0x7FFF_FFFF {
                        r matches Err(AnimeDownloaderError::ParsingError(m)) && m@
                            == "cipher shift parameter out of range"@
                    } else if numeral_value(b, 10) > usize::MAX {
                        r matches Err(AnimeDownloaderError::ParsingError(m)) && m@
                            == "cipher base parameter out of range"@
                    } else {
                        match spec_decrypt(
                            p,
                            k,
                            numeral_value(a, 10) as u32,
                            numeral_value(b, 10) as usize,
                        ) {
                            None => r is Err && r->Err_0 is ParsingError,
                            Some(d) => match find_field_from(d, "action=\""@, 0) {
                                None => r matches Err(AnimeDownloaderError::ParsingError(m)) && m@
                                    == "Could not find form action URL"@,
                                Some(_) => match find_field_from(d, "value=\""@, 0) {
                                    None => r matches Err(AnimeDownloaderError::ParsingError(m))
                                        && m@ == "Could not find form token"@,
                                    Some(_) => r is Ok,
                                },
                            },
                        }
                    }
                },
            }
        }),
{
    let caps = match find_cipher_call_captures(html) {
        None => {
            return Err(
                AnimeDownloaderError::ParsingError(
                    "Could not find encryption parameters".to_owned(),
                ),
            );
        },
        Some(c) => c,
    };
    let (payload, key, d2, d3) = caps;
    let v1: u32 = match parse_u64_digits(&d2) {
        Some(x) if x <= 0x7FFF_FFFF => x as u32,
        _ => {
            return Err(
                AnimeDownloaderError::ParsingError("cipher shift parameter out of range".to_owned()),
            );
        },
    };
    let v2: usize = match parse_u64_digits(&d3) {
        Some(x) if x <= usize::MAX as u64 => x as usize,
        _ => {
            return Err(
                AnimeDownloaderError::ParsingError("cipher base parameter out of range".to_owned()),
            );
        },
    };
    let decoded = match decrypt(payload.as_str(), key.as_str(), v1, v2) {
        Ok(d) => d,
        Err(e) => {
            return Err(e);
        },
    };
    let dv = chars_of(decoded.as_str());
    let url = match find_field(&dv, "action=\"") {
        None => {
            return Err(
                AnimeDownloaderError::ParsingError("Could not find form action URL".to_owned()),
            );
        },
        Some(u) => u,
    };
    let token = match find_field(&dv, "value=\"") {
        None => {
            return Err(AnimeDownloaderError::ParsingError("Could not find form token".to_owned()));
        },
        Some(t) => t,
    };
    Ok(RedirectForm { url, token })
}

/// The `Location` header of the redirect response, as the caller read it.
pub enum HeaderText {
    Missing,
    Malformed,
    Text(String),
}

/// The redirect resolver's final decision: a present, readable
/// `Location` header is the direct URL; a missing one is an extraction
/// error; an unreadable one is a parsing error.
pub fn direct_url_from_location(h: &HeaderText) -> (r: Result<String, AnimeDownloaderError>)
    ensures
        match h {
            HeaderText::Missing => r is Err && (r->Err_0 matches
                AnimeDownloaderError::ExtractorError(m) && m@ == "No redirect URL found"@),
            HeaderText::Malformed => r is Err && (r->Err_0 matches
                AnimeDownloaderError::ParsingError(m) && m@ == "Invalid Location header"@),
            HeaderText::Text(u) => r is Ok && r->Ok_0@ == u@,
        },
{
    match h {
        HeaderText::Missing => Err(
            AnimeDownloaderError::ExtractorError("No redirect URL found".to_owned()),
        ),
        HeaderText::Malformed => Err(
            AnimeDownloaderError::ParsingError("Invalid Location header".to_owned()),
        ),
        HeaderText::Text(u) => Ok(u.clone()),
    }
}

} // verus!
