use anime_downloader::errors::AnimeDownloaderError;
use anime_downloader::quality::Quality;
use anime_downloader::extract::{find_kwik_link, find_quality_label};
use anime_downloader::resolver::{
    direct_url_from_location, extract_kwik_link, resolve_renditions, select_quality, HeaderText,
    Rendition,
};

fn rendition(url: &str, label: &str) -> Rendition {
    Rendition { url: url.to_string(), quality: Quality::from_str(label) }
}

#[test]
fn selection_prefers_1080p_anywhere() {
    let cands = vec![
        rendition("u-720", "720p"),
        rendition("u-2160", "2160p"),
        rendition("u-1080", "1080p"),
    ];
    let picked = select_quality(&cands, "3").unwrap();
    assert_eq!(picked.url, "u-1080");
    assert_eq!(picked.quality.to_string_p(), "1080p");
}

#[test]
fn selection_tie_breaks_in_document_order() {
    let cands = vec![rendition("first", "1080p"), rendition("second", "1080p")];
    let picked = select_quality(&cands, "3").unwrap();
    assert_eq!(picked.url, "first");
}

#[test]
fn selection_falls_back_to_highest_tier() {
    let cands = vec![rendition("u-480", "480p"), rendition("u-720", "720p")];
    let picked = select_quality(&cands, "9").unwrap();
    assert_eq!(picked.url, "u-720");
    assert_eq!(picked.quality.to_string_p(), "720p");
}

#[test]
fn selection_on_empty_set_is_not_found() {
    let cands: Vec<Rendition> = Vec::new();
    let err = select_quality(&cands, "7").unwrap_err();
    assert!(matches!(err, AnimeDownloaderError::QualityNotFound(_)));
    assert_eq!(err.message(), "Quality not found error: No qualities found for episode 7");
}

#[test]
fn resolve_renditions_reads_the_page() {
    let html = "<html><head></head><body><div id=\"pickDownload\">\
        <a href=\"https://a.example/720\">SubsPlease 720p (102MB)</a>\
        <a href=\"https://a.example/1080\">SubsPlease 1080p (188MB)</a>\
        </div></body></html>";
    let picked = resolve_renditions(html, "1").unwrap();
    assert_eq!(picked.url, "https://a.example/1080");
    assert_eq!(picked.quality.to_string_p(), "1080p");
}

#[test]
fn resolve_renditions_without_anchors_is_not_found() {
    let html = "<html><body><p>nothing here</p></body></html>";
    let err = resolve_renditions(html, "2").unwrap_err();
    assert!(matches!(err, AnimeDownloaderError::QualityNotFound(_)));
}

#[test]
fn quality_label_matching_respects_word_boundaries() {
    assert_eq!(find_quality_label("HD 1080p episode"), Some("1080p".to_string()));
    assert_eq!(find_quality_label("x264-720p!"), Some("720p".to_string()));
    assert_eq!(find_quality_label("12345p"), None);
    assert_eq!(find_quality_label("720px"), None);
    assert_eq!(find_quality_label("no labels"), None);
}

#[test]
fn kwik_link_matching() {
    let text = "let e = \"https://kwik.si/f/AbC123xyz\";";
    assert_eq!(find_kwik_link(text), Some("https://kwik.si/f/AbC123xyz".to_string()));
    assert_eq!(find_kwik_link("https://kwik.si/f/"), None);
    assert_eq!(find_kwik_link("nothing"), None);
}

#[test]
fn kwik_extraction_reports_each_missing_piece() {
    let err = extract_kwik_link("<html><head></head></html>").unwrap_err();
    assert!(matches!(err, AnimeDownloaderError::ExtractorError(_)));
}

#[test]
fn kwik_extraction_reads_the_fixed_script_element() {
    // The embedded link sits in the head's 24th element.
    let mut head = String::new();
    for i in 0..23 {
        head.push_str(&format!("<meta name=\"m{i}\" content=\"x\">"));
    }
    head.push_str("<script>var u = \"https://kwik.si/f/Zz9abc\";</script>");
    let html = format!("<html><head>{head}</head><body></body></html>");
    assert_eq!(extract_kwik_link(&html).unwrap(), "https://kwik.si/f/Zz9abc");
}

#[test]
fn location_header_decides_the_redirect() {
    let ok = direct_url_from_location(&HeaderText::Text("https://cdn.example/file".to_string()));
    assert_eq!(ok.unwrap(), "https://cdn.example/file");
    let missing = direct_url_from_location(&HeaderText::Missing).unwrap_err();
    assert!(matches!(missing, AnimeDownloaderError::ExtractorError(_)));
    let bad = direct_url_from_location(&HeaderText::Malformed).unwrap_err();
    assert!(matches!(bad, AnimeDownloaderError::ParsingError(_)));
}
