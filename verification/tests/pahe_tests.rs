use anime_downloader::anime::{AnimeEpisode, AnimeSeries, AnimeSite};
use anime_downloader::errors::AnimeDownloaderError;
use anime_downloader::pahe::{
    browser_headers, episodes_from_records, kwik_post_headers, next_page, parse_episode_page,
    parse_search_results, series_list_from_records, AnimePahe, AnimePaheEpisode, AnimePaheSeries,
};

#[test]
fn site_handle_has_the_canonical_identity() {
    let site = AnimePahe::new();
    assert_eq!(site.name(), "AnimePahe");
    assert_eq!(site.base_url(), "https://animepahe.ru");
    let qualities = site.available_qualities();
    assert_eq!(qualities.len(), 4);
    assert_eq!(qualities[3].to_string_p(), "1080p");
}

#[test]
fn search_results_parse_with_defaults() {
    let text = "{\"data\":[\
        {\"title\":\"Tokyo Ghoul\",\"session\":\"s1\",\"status\":\"finished\"},\
        {\"session\":\"s2\"}]}";
    let results = parse_search_results(text, "AnimePahe").unwrap();
    assert_eq!(results.len(), 2);
    assert_eq!(results[0].title, "Tokyo Ghoul");
    assert_eq!(results[0].session_id, "s1");
    assert_eq!(results[0].site_name(), "AnimePahe");
    assert_eq!(results[1].title, "Unknown");
    assert_eq!(results[1].session_id, "s2");
    assert_eq!(results[0].episode_count(), 0);
}

#[test]
fn search_without_data_is_an_empty_result() {
    assert!(parse_search_results("{\"total\":0}", "AnimePahe").unwrap().is_empty());
}

#[test]
fn unparsable_search_text_is_a_parsing_error() {
    let err = parse_search_results("not json at all", "AnimePahe").unwrap_err();
    assert!(matches!(err, AnimeDownloaderError::ParsingError(_)));
}

#[test]
fn episode_pages_parse_and_number_their_episodes() {
    let text = "{\"last_page\":3,\"data\":[\
        {\"episode\":1,\"episode2\":0,\"title\":\"First\",\"session\":\"e1\"},\
        {\"episode\":2,\"episode2\":3,\"session\":\"e2\"}]}";
    let page = parse_episode_page(text, "anime-1", "Tokyo Ghoul").unwrap();
    assert_eq!(page.last_page, 3);
    assert_eq!(page.episodes.len(), 2);
    assert_eq!(page.episodes[0].episode_number, "1");
    assert_eq!(page.episodes[0].title, "First");
    assert_eq!(page.episodes[1].episode_number, "2 - 3");
    assert_eq!(page.episodes[1].title, "Unknown");
    assert_eq!(page.episodes[1].anime_id, "anime-1");
    assert_eq!(page.episodes[1].anime_title, "Tokyo Ghoul");
}

#[test]
fn episode_record_without_a_number_is_a_parsing_error() {
    let text = "{\"data\":[{\"title\":\"bad\"}]}";
    let err = parse_episode_page(text, "a", "t").unwrap_err();
    assert!(matches!(err, AnimeDownloaderError::ParsingError(_)));
}

#[test]
fn record_lists_build_in_order_with_defaults() {
    let series = series_list_from_records(
        &Some(vec![(Some("A".to_string()), None), (None, Some("s2".to_string()))]),
        "AnimePahe",
    );
    assert_eq!(series.len(), 2);
    assert_eq!(series[0].title, "A");
    assert_eq!(series[0].session_id, "");
    assert_eq!(series[1].title, "Unknown");
    assert_eq!(series[1].session_id, "s2");
    assert!(series_list_from_records(&None, "AnimePahe").is_empty());

    let eps = episodes_from_records(&Some(vec![(Some(4), Some(0), None, None)]), "a", "t")
        .unwrap();
    assert_eq!(eps[0].episode_number, "4");
    assert_eq!(eps[0].title, "Unknown");
    assert!(episodes_from_records(&None, "a", "t").unwrap().is_empty());
    let err = episodes_from_records(&Some(vec![(None, Some(0), None, None)]), "a", "t")
        .unwrap_err();
    assert!(matches!(err, AnimeDownloaderError::ParsingError(_)));
}

#[test]
fn paging_stops_at_the_last_page() {
    assert_eq!(next_page(1, 3), Some(2));
    assert_eq!(next_page(2, 3), Some(3));
    assert_eq!(next_page(3, 3), None);
    assert_eq!(next_page(5, 3), None);
}

#[test]
fn episode_methods_render_titles() {
    let ep = AnimePaheEpisode {
        title: "Tokyo Ghoul".to_string(),
        session_id: "sess".to_string(),
        anime_id: "anime-1".to_string(),
        anime_title: "Tokyo Ghoul".to_string(),
        episode_number: "5".to_string(),
    };
    assert_eq!(ep.pretty_title(), "Tokyo Ghoul - Episode 5");
    assert_eq!(ep.display_line(), "Tokyo Ghoul - 5");
    assert_eq!(ep.play_url(), "https://animepahe.ru/play/anime-1/sess");
    assert_eq!(ep.series_title(), "Tokyo Ghoul");
    assert_eq!(ep.episode_number_str(), "5");
}

#[test]
fn series_reports_its_episode_count() {
    let series = AnimePaheSeries {
        title: "T".to_string(),
        session_id: "s".to_string(),
        site_name: "AnimePahe".to_string(),
        episode_list: Vec::new(),
    };
    assert_eq!(series.title(), "T");
    assert_eq!(series.episode_count(), 0);
}

#[test]
fn header_profiles_are_complete() {
    let site_headers = browser_headers();
    assert_eq!(site_headers.len(), 14);
    assert_eq!(site_headers[0].0, "accept");
    assert!(site_headers.iter().any(|(k, v)| k == "user-agent" && v.contains("Chrome/136")));
    assert!(site_headers.iter().any(|(k, v)| k == "referer" && v == "https://animepahe.ru/"));

    let post_headers = kwik_post_headers("https://kwik.si/f/abc");
    assert_eq!(post_headers.len(), 15);
    assert!(post_headers.iter().any(|(k, v)| k == "origin" && v == "https://kwik.si"));
    assert!(post_headers.iter().any(|(k, v)| k == "referer" && v == "https://kwik.si/f/abc"));
    assert!(
        post_headers
            .iter()
            .any(|(k, v)| k == "content-type" && v == "application/x-www-form-urlencoded")
    );
}
