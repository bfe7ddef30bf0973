use anime_downloader::pahe::browser_headers;

#[test]
fn persisted_jar_round_trips_the_cookie_set() {
    let url = reqwest::Url::parse("https://animepahe.ru/").unwrap();
    let mut store = cookie_store::CookieStore::new();
    store
        .parse("__ddg1=abc123; Max-Age=86400; Domain=animepahe.ru; Path=/", &url)
        .unwrap();
    store
        .parse("__ddg2=zz9; Max-Age=86400; Domain=animepahe.ru; Path=/", &url)
        .unwrap();

    let mut buffer: Vec<u8> = Vec::new();
    cookie_store::serde::json::save(&store, &mut buffer).unwrap();
    let reloaded = cookie_store::serde::json::load(buffer.as_slice()).unwrap();

    let mut before: Vec<(String, String)> = store
        .iter_any()
        .map(|c| (c.name().to_string(), c.value().to_string()))
        .collect();
    let mut after: Vec<(String, String)> = reloaded
        .iter_any()
        .map(|c| (c.name().to_string(), c.value().to_string()))
        .collect();
    before.sort();
    after.sort();
    assert_eq!(before.len(), 2);
    assert_eq!(before, after);
}

#[test]
fn reloading_after_a_new_exchange_still_matches() {
    let url = reqwest::Url::parse("https://animepahe.ru/").unwrap();
    let mut store = cookie_store::CookieStore::new();
    store
        .parse("__ddg1=first; Max-Age=86400; Domain=animepahe.ru; Path=/", &url)
        .unwrap();
    // A later exchange overwrites the cookie; the persisted state must
    // reflect the last write, not the first.
    store
        .parse("__ddg1=second; Max-Age=86400; Domain=animepahe.ru; Path=/", &url)
        .unwrap();

    let mut buffer: Vec<u8> = Vec::new();
    cookie_store::serde::json::save(&store, &mut buffer).unwrap();
    let reloaded = cookie_store::serde::json::load(buffer.as_slice()).unwrap();
    let values: Vec<String> = reloaded.iter_any().map(|c| c.value().to_string()).collect();
    assert_eq!(values, vec!["second".to_string()]);
}

#[test]
fn session_headers_accompany_every_request() {
    // The header profile is part of the session; every outbound request
    // carries the complete set.
    let headers = browser_headers();
    for name in [
        "accept",
        "accept-language",
        "cache-control",
        "priority",
        "referer",
        "sec-ch-ua",
        "sec-ch-ua-mobile",
        "sec-ch-ua-platform",
        "sec-fetch-dest",
        "sec-fetch-mode",
        "sec-fetch-site",
        "sec-fetch-user",
        "upgrade-insecure-requests",
        "user-agent",
    ] {
        assert!(headers.iter().any(|(k, _)| k == name), "missing header {name}");
    }
}
