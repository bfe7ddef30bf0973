use vstd::prelude::*;
use vstd::string::StringExecFns;

use crate::anime::{AnimeEpisode, AnimeSeries, AnimeSite};
use crate::errors::AnimeDownloaderError;
use crate::quality::Quality;
use crate::utils::{episode_number_spec, format_episode_number};

verus! {

/// The site handle: everything the verified pipeline reads of the site.
/// The HTTP client, cookie jar and retry policy that accompany it are
/// owned by the driver that performs the requests.
#[derive(Debug, Clone)]
pub struct AnimePahe {
    pub base_url: String,
}

impl AnimePahe {
    /// A handle on the site at its canonical base URL.
    pub fn new() -> (r: Self)
        ensures
            r.base_url@ == "https://animepahe.ru"@,
    {
        AnimePahe { base_url: "https://animepahe.ru".to_owned() }
    }
}

impl AnimeSite for AnimePahe {
    open spec fn name_spec(&self) -> Seq<char> {
        "AnimePahe"@
    }

    open spec fn base_url_spec(&self) -> Seq<char> {
        self.base_url@
    }

    open spec fn qualities_spec(&self) -> Seq<Quality> {
        seq![Quality::P360, Quality::P480, Quality::P720, Quality::P1080]
    }

    fn name(&self) -> (r: String) {
        "AnimePahe".to_owned()
    }

    fn base_url(&self) -> (r: String) {
        self.base_url.clone()
    }

    fn available_qualities(&self) -> (r: Vec<Quality>) {
        let mut v: Vec<Quality> = Vec::new();
        v.push(Quality::P360);
        v.push(Quality::P480);
        v.push(Quality::P720);
        v.push(Quality::P1080);
        proof {
            assert(v@ =~= self.qualities_spec());
        }
        v
    }
}

/// One episode: the data the pipeline needs to locate and label its
/// download.
#[derive(Debug, Clone)]
pub struct AnimePaheEpisode {
    pub title: String,
    pub session_id: String,
    pub anime_id: String,
    pub anime_title: String,
    pub episode_number: String,
}

impl AnimePaheEpisode {
    /// The play-page URL this episode resolves through.
    pub fn play_url(&self) -> (r: String)
        ensures
            r@ == "https://animepahe.ru/play/"@ + self.anime_id@ + "/"@ + self.session_id@,
    {
        "https://animepahe.ru/play/".to_owned().concat(self.anime_id.as_str()).concat("/").concat(
            self.session_id.as_str(),
        )
    }

    /// The one-line rendering of this episode.
    pub fn display_line(&self) -> (r: String)
        ensures
            r@ == self.title@ + " - "@ + self.episode_number@,
    {
        self.title.clone().concat(" - ").concat(self.episode_number.as_str())
    }
}

impl AnimeEpisode for AnimePaheEpisode {
    open spec fn series_title_spec(&self) -> Seq<char> {
        self.title@
    }

    open spec fn episode_number_spec(&self) -> Seq<char> {
        self.episode_number@
    }

    fn series_title(&self) -> (r: String) {
        self.title.clone()
    }

    fn episode_number_str(&self) -> (r: String) {
        self.episode_number.clone()
    }

    fn pretty_title(&self) -> (r: String) {
        self.title.clone().concat(" - Episode ").concat(self.episode_number.as_str())
    }
}

/// One series and the episodes fetched for it so far.
#[derive(Debug, Clone)]
pub struct AnimePaheSeries {
    pub title: String,
    pub session_id: String,
    pub site_name: String,
    pub episode_list: Vec<AnimePaheEpisode>,
}

impl AnimeSeries for AnimePaheSeries {
    open spec fn site_name_spec(&self) -> Seq<char> {
        self.site_name@
    }

    open spec fn title_spec(&self) -> Seq<char> {
        self.title@
    }

    open spec fn episode_count_spec(&self) -> nat {
        self.episode_list@.len()
    }

    fn site_name(&self) -> (r: String) {
        self.site_name.clone()
    }

    fn title(&self) -> (r: String) {
        self.title.clone()
    }

    fn episode_count(&self) -> (r: usize) {
        self.episode_list.len()
    }
}

#[verifier::external_type_specification]
#[verifier::external_body]
pub struct ExJsonValue(serde_json::Value);

/// Relies on `serde_json::from_str`: parses text as a JSON document, the
/// error mapped to its message.
#[verifier::external_body]
fn json_parse(text: &str) -> (r: Result<serde_json::Value, String>) {
    serde_json::from_str(text).map_err(|e| e.to_string())
}

/// Relies on `serde_json::Value::get`: the member of an object under a
/// key, if any.
#[verifier::external_body]
fn json_get<'a>(v: &'a serde_json::Value, key: &str) -> (r: Option<&'a serde_json::Value>) {
    v.get(key)
}

/// Relies on `serde_json::Value::as_str`: the text of a JSON string
/// value.
#[verifier::external_body]
fn json_str(v: &serde_json::Value) -> (r: Option<String>) {
    v.as_str().map(|s| s.to_owned())
}

/// Relies on `serde_json::Value::as_u64`: the value of a JSON integer
/// that fits an unsigned 64-bit number.
#[verifier::external_body]
fn json_u64(v: &serde_json::Value) -> (r: Option<u64>) {
    v.as_u64()
}

/// Relies on `serde_json::Value::as_array`: the elements of a JSON
/// array.
#[verifier::external_body]
fn json_array(v: &serde_json::Value) -> (r: Option<Vec<serde_json::Value>>) {
    v.as_array().cloned()
}

/// The series entry built from one search record's fields: a missing
/// title reads "Unknown", a missing session reads empty.
pub fn series_fields(title: Option<String>, session: Option<String>) -> (r: (String, String))
    ensures
        r.0@ == match title {
            Some(t) => t@,
            None => "Unknown"@,
        },
        r.1@ == match session {
            Some(s) => s@,
            None => ""@,
        },
{
    let t = match title {
        Some(t) => t,
        None => "Unknown".to_owned(),
    };
    let s = match session {
        Some(s) => s,
        None => "".to_owned(),
    };
    (t, s)
}

/// The series list built from a search document's records: no `data`
/// array means no results, not an error; each record contributes one
/// entry, in order, with a missing title reading "Unknown" and a missing
/// session reading empty.
pub fn series_list_from_records(
    records: &Option<Vec<(Option<String>, Option<String>)>>,
    site_name: &str,
) -> (r: Vec<AnimePaheSeries>)
    ensures
        records is None ==> r@.len() == 0,
        records matches Some(rs) ==> {
            &&& r@.len() == rs@.len()
            &&& forall|i: int|
                0 <= i < rs@.len() ==> {
                    &&& (#[trigger] r@[i]).title@ == (match rs@[i].0 {
                        Some(t) => t@,
                        None => "Unknown"@,
                    })
                    &&& r@[i].session_id@ == (match rs@[i].1 {
                        Some(sess) => sess@,
                        None => ""@,
                    })
                    &&& r@[i].site_name@ == site_name@
                    &&& r@[i].episode_list@.len() == 0
                }
        },
{
    let rs = match records {
        None => {
            return Vec::new();
        },
        Some(rs) => rs,
    };
    let mut out: Vec<AnimePaheSeries> = Vec::new();
    let mut i: usize = 0;
    while i < rs.len()
        invariant
            i <= rs@.len(),
            out@.len() == i,
            forall|j: int|
                0 <= j < i ==> {
                    &&& (#[trigger] out@[j]).title@ == (match rs@[j].0 {
                        Some(t) => t@,
                        None => "Unknown"@,
                    })
                    &&& out@[j].session_id@ == (match rs@[j].1 {
                        Some(sess) => sess@,
                        None => ""@,
                    })
                    &&& out@[j].site_name@ == site_name@
                    &&& out@[j].episode_list@.len() == 0
                },
        decreases rs@.len() - i,
    {
        let title = match &rs[i].0 {
            Some(t) => Some(t.clone()),
            None => None,
        };
        let session = match &rs[i].1 {
            Some(sess) => Some(sess.clone()),
            None => None,
        };
        let (title, session_id) = series_fields(title, session);
        out.push(
            AnimePaheSeries {
                title,
                session_id,
                site_name: site_name.to_owned(),
                episode_list: Vec::new(),
            },
        );
        i += 1;
    }
    out
}

/// Parses one search response: the records under `data` become series
/// entries with defaulted fields; a response without a `data` array is an
/// empty result, and unparsable text is a parsing error naming the cause.
/// What each record yields is fixed by `series_list_from_records`; the
/// reading of the document itself goes through the opaque JSON boundary.
pub fn parse_search_results(text: &str, site_name: &str) -> (r: Result<
    Vec<AnimePaheSeries>,
    AnimeDownloaderError,
>)
    ensures
        r is Err ==> r->Err_0 is ParsingError,
        r is Ok ==> forall|i: int|
            0 <= i < r->Ok_0@.len() ==> (#[trigger] r->Ok_0@[i]).site_name@ == site_name@
                && r->Ok_0@[i].episode_list@.len() == 0,
{
    let doc = match json_parse(text) {
        Ok(v) => v,
        Err(m) => {
            return Err(AnimeDownloaderError::ParsingError(m));
        },
    };
    let arr = match json_get(&doc, "data") {
        Some(d) => json_array(d),
        None => None,
    };
    let records: Option<Vec<(Option<String>, Option<String>)>> = match arr {
        None => None,
        Some(arr) => {
            let mut rs: Vec<(Option<String>, Option<String>)> = Vec::new();
            let mut i: usize = 0;
            while i < arr.len()
                decreases arr@.len() - i,
            {
                let title = match json_get(&arr[i], "title") {
                    Some(t) => json_str(t),
                    None => None,
                };
                let session = match json_get(&arr[i], "session") {
                    Some(sess) => json_str(sess),
                    None => None,
                };
                rs.push((title, session));
                i += 1;
            }
            Some(rs)
        },
    };
    Ok(series_list_from_records(&records, site_name))
}

/// The episode number from one release record: both fields must be
/// numbers, as a record without them is malformed; a positive second
/// number renders as a range.
pub fn episode_number_from_fields(ep: Option<u64>, ep2: Option<u64>) -> (r: Result<
    String,
    AnimeDownloaderError,
>)
    ensures
        match (ep, ep2) {
            (Some(e), Some(e2)) => r is Ok && r->Ok_0@ == episode_number_spec(
                e as nat,
                e2 as nat,
            ),
            _ => r is Err && r->Err_0 is ParsingError,
        },
{
    match (ep, ep2) {
        (Some(e), Some(e2)) => Ok(format_episode_number(e, e2)),
        _ => Err(
            AnimeDownloaderError::ParsingError("release record lacks an episode number".to_owned()),
        ),
    }
}

/// One page of a series' release listing.
#[derive(Debug, Clone)]
pub struct EpisodePage {
    pub episodes: Vec<AnimePaheEpisode>,
    pub last_page: u64,
}

/// The episode list built from a release page's records: no `data` array
/// means the page carries no episodes, ending pagination, not an error;
/// otherwise each record contributes one episode, in order, bound to the
/// given series, with defaulted title and session — unless a record
/// lacks its numeric episode fields, which is a parsing error.
pub fn episodes_from_records(
    records: &Option<Vec<(Option<u64>, Option<u64>, Option<String>, Option<String>)>>,
    anime_id: &str,
    anime_title: &str,
) -> (r: Result<Vec<AnimePaheEpisode>, AnimeDownloaderError>)
    ensures
        records is None ==> r is Ok && r->Ok_0@.len() == 0,
        records matches Some(rs) ==> {
            if forall|i: int| 0 <= i < rs@.len() ==> (#[trigger] rs@[i]).0 is Some && rs@[i].1
                is Some {
                &&& r is Ok
                &&& r->Ok_0@.len() == rs@.len()
                &&& forall|i: int|
                    0 <= i < rs@.len() ==> {
                        &&& (#[trigger] r->Ok_0@[i]).episode_number@ == episode_number_spec(
                            rs@[i].0->0 as nat,
                            rs@[i].1->0 as nat,
                        )
                        &&& r->Ok_0@[i].title@ == (match rs@[i].2 {
                            Some(t) => t@,
                            None => "Unknown"@,
                        })
                        &&& r->Ok_0@[i].session_id@ == (match rs@[i].3 {
                            Some(sess) => sess@,
                            None => ""@,
                        })
                        &&& r->Ok_0@[i].anime_id@ == anime_id@
                        &&& r->Ok_0@[i].anime_title@ == anime_title@
                    }
            } else {
                r is Err && r->Err_0 is ParsingError
            }
        },
{
    let rs = match records {
        None => {
            return Ok(Vec::new());
        },
        Some(rs) => rs,
    };
    let mut out: Vec<AnimePaheEpisode> = Vec::new();
    let mut i: usize = 0;
    while i < rs.len()
        invariant
            records is Some,
            records->Some_0@ == rs@,
            i <= rs@.len(),
            out@.len() == i,
            forall|j: int| 0 <= j < i ==> (#[trigger] rs@[j]).0 is Some && rs@[j].1 is Some,
            forall|j: int|
                0 <= j < i ==> {
                    &&& (#[trigger] out@[j]).episode_number@ == episode_number_spec(
                        rs@[j].0->0 as nat,
                        rs@[j].1->0 as nat,
                    )
                    &&& out@[j].title@ == (match rs@[j].2 {
                        Some(t) => t@,
                        None => "Unknown"@,
                    })
                    &&& out@[j].session_id@ == (match rs@[j].3 {
                        Some(sess) => sess@,
                        None => ""@,
                    })
                    &&& out@[j].anime_id@ == anime_id@
                    &&& out@[j].anime_title@ == anime_title@
                },
        decreases rs@.len() - i,
    {
        let episode_number = match episode_number_from_fields(rs[i].0, rs[i].1) {
            Ok(n) => n,
            Err(e) => {
                return Err(e);
            },
        };
        let title = match &rs[i].2 {
            Some(t) => Some(t.clone()),
            None => None,
        };
        let session = match &rs[i].3 {
            Some(sess) => Some(sess.clone()),
            None => None,
        };
        let (title, session_id) = series_fields(title, session);
        out.push(
            AnimePaheEpisode {
                title,
                session_id,
                anime_id: anime_id.to_owned(),
                anime_title: anime_title.to_owned(),
                episode_number,
            },
        );
        i += 1;
    }
    Ok(out)
}

/// Parses one page of the release listing: each record under `data`
/// becomes an episode bound to the given series; a page without a `data`
/// array carries no episodes, and a record without an episode number is
/// a parsing error.  What each record yields is fixed by
/// `episodes_from_records`; the reading of the document itself goes
/// through the opaque JSON boundary.
pub fn parse_episode_page(text: &str, anime_id: &str, anime_title: &str) -> (r: Result<
    EpisodePage,
    AnimeDownloaderError,
>)
    ensures
        r is Err ==> r->Err_0 is ParsingError,
        r is Ok ==> forall|i: int|
            0 <= i < r->Ok_0.episodes@.len() ==> (#[trigger] r->Ok_0.episodes@[i]).anime_id@
                == anime_id@ && r->Ok_0.episodes@[i].anime_title@ == anime_title@,
{
    let doc = match json_parse(text) {
        Ok(v) => v,
        Err(m) => {
            return Err(AnimeDownloaderError::ParsingError(m));
        },
    };
    let last_page: u64 = match json_get(&doc, "last_page") {
        Some(lp) => match json_u64(lp) {
            Some(n) => n,
            None => 1,
        },
        None => 1,
    };
    let arr = match json_get(&doc, "data") {
        Some(d) => json_array(d),
        None => None,
    };
    let records: Option<Vec<(Option<u64>, Option<u64>, Option<String>, Option<String>)>> =
        match arr {
        None => None,
        Some(arr) => {
            let mut rs: Vec<(Option<u64>, Option<u64>, Option<String>, Option<String>)> =
                Vec::new();
            let mut i: usize = 0;
            while i < arr.len()
                decreases arr@.len() - i,
            {
                let ep = match json_get(&arr[i], "episode") {
                    Some(e) => json_u64(e),
                    None => None,
                };
                let ep2 = match json_get(&arr[i], "episode2") {
                    Some(e) => json_u64(e),
                    None => None,
                };
                let title = match json_get(&arr[i], "title") {
                    Some(t) => json_str(t),
                    None => None,
                };
                let session = match json_get(&arr[i], "session") {
                    Some(sess) => json_str(sess),
                    None => None,
                };
                rs.push((ep, ep2, title, session));
                i += 1;
            }
            Some(rs)
        },
    };
    let episodes = match episodes_from_records(&records, anime_id, anime_title) {
        Ok(eps) => eps,
        Err(e) => {
            return Err(e);
        },
    };
    Ok(EpisodePage { episodes, last_page })
}

/// The paging decision of the release fetch: stop at the last page, else
/// move to the next.
pub fn next_page(page: u64, last_page: u64) -> (r: Option<u64>)
    ensures
        page >= last_page ==> r is None,
        page < last_page ==> r == Some((page + 1) as u64),
{
    if page >= last_page {
        None
    } else {
        Some(page + 1)
    }
}

/// The fixed browser-mimicking header profile attached to every request
/// against the site; the defense layer keys on the complete set, so it
/// is reproduced in full.
pub open spec fn site_header_profile() -> Seq<(Seq<char>, Seq<char>)> {
    seq![
        (
            "accept"@,
            "text/html,application/xhtml+xml,application/xml;q=0.9,image/avif,image/webp,image/apng,*/*;q=0.8,application/signed-exchange;v=b3;q=0.7"@,
        ),
        ("accept-language"@, "en-US,en;q=0.9"@),
        ("cache-control"@, "max-age=0"@),
        ("priority"@, "u=0, i"@),
        ("referer"@, "https://animepahe.ru/"@),
        ("sec-ch-ua"@, "\"Chromium\";v=\"136\", \"Google Chrome\";v=\"136\", \"Not.A/Brand\";v=\"99\""@),
        ("sec-ch-ua-mobile"@, "?0"@),
        ("sec-ch-ua-platform"@, "\"Windows\""@),
        ("sec-fetch-dest"@, "document"@),
        ("sec-fetch-mode"@, "navigate"@),
        ("sec-fetch-site"@, "same-origin"@),
        ("sec-fetch-user"@, "?1"@),
        ("upgrade-insecure-requests"@, "1"@),
        (
            "user-agent"@,
            "Mozilla/5.0 (Windows NT 10.0; Win64; x64)) AppleWebKit/537.36 (KHTML, like Gecko)) Chrome/136.0.0.0 Safari/537.36"@,
        ),
    ]
}

/// The site's request headers, in order.
pub fn browser_headers() -> (r: Vec<(String, String)>)
    ensures
        r.deep_view() == site_header_profile(),
{
    let mut v: Vec<(String, String)> = Vec::new();
    v.push(
        (
            "accept".to_owned(),
            "text/html,application/xhtml+xml,application/xml;q=0.9,image/avif,image/webp,image/apng,*/*;q=0.8,application/signed-exchange;v=b3;q=0.7".to_owned(),
        ),
    );
    v.push(("accept-language".to_owned(), "en-US,en;q=0.9".to_owned()));
    v.push(("cache-control".to_owned(), "max-age=0".to_owned()));
    v.push(("priority".to_owned(), "u=0, i".to_owned()));
    v.push(("referer".to_owned(), "https://animepahe.ru/".to_owned()));
    v.push(
        (
            "sec-ch-ua".to_owned(),
            "\"Chromium\";v=\"136\", \"Google Chrome\";v=\"136\", \"Not.A/Brand\";v=\"99\"".to_owned(),
        ),
    );
    v.push(("sec-ch-ua-mobile".to_owned(), "?0".to_owned()));
    v.push(("sec-ch-ua-platform".to_owned(), "\"Windows\"".to_owned()));
    v.push(("sec-fetch-dest".to_owned(), "document".to_owned()));
    v.push(("sec-fetch-mode".to_owned(), "navigate".to_owned()));
    v.push(("sec-fetch-site".to_owned(), "same-origin".to_owned()));
    v.push(("sec-fetch-user".to_owned(), "?1".to_owned()));
    v.push(("upgrade-insecure-requests".to_owned(), "1".to_owned()));
    v.push(
        (
            "user-agent".to_owned(),
            "Mozilla/5.0 (Windows NT 10.0; Win64; x64)) AppleWebKit/537.36 (KHTML, like Gecko)) Chrome/136.0.0.0 Safari/537.36".to_owned(),
        ),
    );
    proof {
        assert(v.deep_view() =~= site_header_profile());
    }
    v
}

/// The header profile of the redirect submission: content type, an
/// origin fixed to the engine page's domain, and a referer naming the
/// engine page itself.
pub open spec fn redirect_header_profile(referer: Seq<char>) -> Seq<(Seq<char>, Seq<char>)> {
    seq![
        (
            "accept"@,
            "text/html,application/xhtml+xml,application/xml;q=0.9,image/avif,image/webp,image/apng,*/*;q=0.8,application/signed-exchange;v=b3;q=0.7"@,
        ),
        ("accept-language"@, "en-US,en;q=0.9"@),
        ("cache-control"@, "max-age=0"@),
        ("content-type"@, "application/x-www-form-urlencoded"@),
        ("origin"@, "https://kwik.si"@),
        ("referer"@, referer),
        ("sec-ch-ua"@, "\"Google Chrome\";v=\"135\", \"Not-A.Brand\";v=\"8\", \"Chromium\";v=\"135\""@),
        ("sec-ch-ua-mobile"@, "?0"@),
        ("sec-ch-ua-platform"@, "\"Windows\""@),
        ("sec-fetch-dest"@, "document"@),
        ("sec-fetch-mode"@, "navigate"@),
        ("sec-fetch-site"@, "same-origin"@),
        ("sec-fetch-user"@, "?1"@),
        ("upgrade-insecure-requests"@, "1"@),
        (
            "user-agent"@,
            "Mozilla/5.0 (Windows NT 10.0; Win64; x64) AppleWebKit/537.36 (KHTML, like Gecko) Chrome/135.0.0.0 Safari/537.36"@,
        ),
    ]
}

/// The redirect submission's headers, in order.
pub fn kwik_post_headers(referer: &str) -> (r: Vec<(String, String)>)
    ensures
        r.deep_view() == redirect_header_profile(referer@),
{
    let mut v: Vec<(String, String)> = Vec::new();
    v.push(
        (
            "accept".to_owned(),
            "text/html,application/xhtml+xml,application/xml;q=0.9,image/avif,image/webp,image/apng,*/*;q=0.8,application/signed-exchange;v=b3;q=0.7".to_owned(),
        ),
    );
    v.push(("accept-language".to_owned(), "en-US,en;q=0.9".to_owned()));
    v.push(("cache-control".to_owned(), "max-age=0".to_owned()));
    v.push(("content-type".to_owned(), "application/x-www-form-urlencoded".to_owned()));
    v.push(("origin".to_owned(), "https://kwik.si".to_owned()));
    v.push(("referer".to_owned(), referer.to_owned()));
    v.push(
        (
            "sec-ch-ua".to_owned(),
            "\"Google Chrome\";v=\"135\", \"Not-A.Brand\";v=\"8\", \"Chromium\";v=\"135\"".to_owned(),
        ),
    );
    v.push(("sec-ch-ua-mobile".to_owned(), "?0".to_owned()));
    v.push(("sec-ch-ua-platform".to_owned(), "\"Windows\"".to_owned()));
    v.push(("sec-fetch-dest".to_owned(), "document".to_owned()));
    v.push(("sec-fetch-mode".to_owned(), "navigate".to_owned()));
    v.push(("sec-fetch-site".to_owned(), "same-origin".to_owned()));
    v.push(("sec-fetch-user".to_owned(), "?1".to_owned()));
    v.push(("upgrade-insecure-requests".to_owned(), "1".to_owned()));
    v.push(
        (
            "user-agent".to_owned(),
            "Mozilla/5.0 (Windows NT 10.0; Win64; x64) AppleWebKit/537.36 (KHTML, like Gecko) Chrome/135.0.0.0 Safari/537.36".to_owned(),
        ),
    );
    proof {
        assert(v.deep_view() =~= redirect_header_profile(referer@));
    }
    v
}

} // verus!
