use vstd::prelude::*;
use vstd::string::StringExecFns;

verus! {

/// Failure taxonomy shared by every stage of the pipeline.  Each fallible
/// step names its stage by returning the matching variant; no stage ever
/// substitutes a default on a structural failure.
#[derive(Debug)]
pub enum AnimeDownloaderError {
    NetworkError(String),
    ParsingError(String),
    NotFoundError(String),
    QualityNotFound(String),
    EpisodeUnavailable(String),
    IoError(String),
    ExtractorError(String),
    ConfigError(String),
    Aria2Error(String),
    UserInputError(String),
    Other(String),
}

impl AnimeDownloaderError {
    /// The human-readable description of this error, naming the stage.
    pub open spec fn message_spec(&self) -> Seq<char> {
        match self {
            AnimeDownloaderError::NetworkError(m) => "Network error: "@ + m@,
            AnimeDownloaderError::ParsingError(m) => "Parsing error: "@ + m@,
            AnimeDownloaderError::NotFoundError(m) => "Not found error: "@ + m@,
            AnimeDownloaderError::QualityNotFound(m) => "Quality not found error: "@ + m@,
            AnimeDownloaderError::EpisodeUnavailable(m) => "Episode unavailable error: "@ + m@,
            AnimeDownloaderError::IoError(m) => "IO error: "@ + m@,
            AnimeDownloaderError::ExtractorError(m) => "Extractor error: "@ + m@,
            AnimeDownloaderError::ConfigError(m) => "Config error: "@ + m@,
            AnimeDownloaderError::Aria2Error(m) => "Aria2 error: "@ + m@,
            AnimeDownloaderError::UserInputError(m) => "User input error: "@ + m@,
            AnimeDownloaderError::Other(m) => "Other error: "@ + m@,
        }
    }

    /// Renders the error for the user.
    pub fn message(&self) -> (r: String)
        ensures
            r@ == self.message_spec(),
    {
        match self {
            AnimeDownloaderError::NetworkError(m) => "Network error: ".to_owned().concat(
                m.as_str(),
            ),
            AnimeDownloaderError::ParsingError(m) => "Parsing error: ".to_owned().concat(
                m.as_str(),
            ),
            AnimeDownloaderError::NotFoundError(m) => "Not found error: ".to_owned().concat(
                m.as_str(),
            ),
            AnimeDownloaderError::QualityNotFound(m) => "Quality not found error: "
                .to_owned()
                .concat(m.as_str()),
            AnimeDownloaderError::EpisodeUnavailable(m) => "Episode unavailable error: "
                .to_owned()
                .concat(m.as_str()),
            AnimeDownloaderError::IoError(m) => "IO error: ".to_owned().concat(m.as_str()),
            AnimeDownloaderError::ExtractorError(m) => "Extractor error: ".to_owned().concat(
                m.as_str(),
            ),
            AnimeDownloaderError::ConfigError(m) => "Config error: ".to_owned().concat(m.as_str()),
            AnimeDownloaderError::Aria2Error(m) => "Aria2 error: ".to_owned().concat(m.as_str()),
            AnimeDownloaderError::UserInputError(m) => "User input error: ".to_owned().concat(
                m.as_str(),
            ),
            AnimeDownloaderError::Other(m) => "Other error: ".to_owned().concat(m.as_str()),
        }
    }
}

} // verus!
