use anime_downloader::errors::AnimeDownloaderError;

#[test]
fn every_error_names_its_stage() {
    let cases = [
        (AnimeDownloaderError::NetworkError("a".to_string()), "Network error: a"),
        (AnimeDownloaderError::ParsingError("b".to_string()), "Parsing error: b"),
        (AnimeDownloaderError::NotFoundError("c".to_string()), "Not found error: c"),
        (AnimeDownloaderError::QualityNotFound("d".to_string()), "Quality not found error: d"),
        (
            AnimeDownloaderError::EpisodeUnavailable("e".to_string()),
            "Episode unavailable error: e",
        ),
        (AnimeDownloaderError::IoError("f".to_string()), "IO error: f"),
        (AnimeDownloaderError::ExtractorError("g".to_string()), "Extractor error: g"),
        (AnimeDownloaderError::ConfigError("h".to_string()), "Config error: h"),
        (AnimeDownloaderError::Aria2Error("i".to_string()), "Aria2 error: i"),
        (AnimeDownloaderError::UserInputError("j".to_string()), "User input error: j"),
        (AnimeDownloaderError::Other("k".to_string()), "Other error: k"),
    ];
    for (err, expected) in cases {
        assert_eq!(err.message(), expected);
    }
}
