use anime_downloader::quality::Quality;

#[test]
fn round_trip_canonical_labels() {
    let labels = ["360p", "480p", "540p", "720p", "1080p", "1440p", "2160p"];
    for label in labels {
        let q = Quality::from_str(label);
        assert_eq!(q.to_string_p(), label);
        let again = Quality::from_str(q.to_string_p().as_str());
        assert_eq!(again.to_string_p(), label);
    }
}

#[test]
fn from_str_is_case_insensitive() {
    assert_eq!(Quality::from_str("4K").to_string_p(), "2160p");
    assert_eq!(Quality::from_str("4k").to_string_p(), "2160p");
    assert_eq!(Quality::from_str("1080P").to_string_p(), "1080p");
}

#[test]
fn from_str_keeps_unknown_labels() {
    let q = Quality::from_str("999x");
    assert!(matches!(q, Quality::Other(_)));
    assert_eq!(q.to_string_p(), "999x");
    assert_eq!(q.rank(), 0);
}

#[test]
fn ranks_order_the_tiers() {
    assert!(Quality::from_str("360p").rank() < Quality::from_str("480p").rank());
    assert!(Quality::from_str("480p").rank() < Quality::from_str("540p").rank());
    assert!(Quality::from_str("540p").rank() < Quality::from_str("720p").rank());
    assert!(Quality::from_str("720p").rank() < Quality::from_str("1080p").rank());
    assert!(Quality::from_str("1080p").rank() < Quality::from_str("1440p").rank());
    assert!(Quality::from_str("1440p").rank() < Quality::from_str("2160p").rank());
    assert!(Quality::from_str("whatever").rank() < Quality::from_str("360p").rank());
}
