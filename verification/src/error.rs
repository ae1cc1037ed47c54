use vstd::prelude::*;
use vstd::string::StringExecFns;

verus! {

/// Error taxonomy of the download core.
///
/// Per-node failures (`Timeout`, `Network`, `ApiNodeUnavailable`,
/// `JsonParse`, and the catch-all `ApiRequest`) are absorbed by the
/// failover loop; only the last recorded one surfaces once every node has
/// been tried, and `AllNodesUnavailable` stands in when none was recorded.
/// Per-chapter failures (`ChapterFetch`) drop a single chapter from the
/// pipeline output; per-job failures are recorded in that job's batch
/// result. Only configuration errors are fatal to the whole process.
#[derive(Debug, Clone, PartialEq, Eq)]
pub enum FanqieError {
    ConfigLoad(String),
    ConfigNotFound(String),
    ApiRequest(String),
    ApiNodeUnavailable(String),
    AllNodesUnavailable,
    BookNotFound(String),
    ChapterFetch(String),
    Download(String),
    FileWrite(String),
    EpubGeneration(String),
    InvalidBookId(String),
    SearchNoResult(String),
    Network(String),
    JsonParse(String),
    Io(String),
    Timeout,
    RateLimited,
}

/// The human-readable description of an error: a fixed phrase for the
/// variant, followed by the structured detail it carries, if any.
pub open spec fn spec_message(e: FanqieError) -> Seq<char> {
    match e {
        FanqieError::ConfigLoad(s) => "config load failed: "@ + s@,
        FanqieError::ConfigNotFound(s) => "config file not found: "@ + s@,
        FanqieError::ApiRequest(s) => "api request failed: "@ + s@,
        FanqieError::ApiNodeUnavailable(s) => "api node unavailable: "@ + s@,
        FanqieError::AllNodesUnavailable => "all api nodes unavailable"@,
        FanqieError::BookNotFound(s) => "book not found or delisted: "@ + s@,
        FanqieError::ChapterFetch(s) => "chapter fetch failed: "@ + s@,
        FanqieError::Download(s) => "download failed: "@ + s@,
        FanqieError::FileWrite(s) => "file write failed: "@ + s@,
        FanqieError::EpubGeneration(s) => "epub generation failed: "@ + s@,
        FanqieError::InvalidBookId(s) => "invalid book id: "@ + s@,
        FanqieError::SearchNoResult(s) => "no search results: "@ + s@,
        FanqieError::Network(s) => "network error: "@ + s@,
        FanqieError::JsonParse(s) => "json parse error: "@ + s@,
        FanqieError::Io(s) => "io error: "@ + s@,
        FanqieError::Timeout => "request timed out"@,
        FanqieError::RateLimited => "rate limited"@,
    }
}

impl FanqieError {
    /// Renders the error as its fixed phrase plus the carried detail.
    pub fn message(&self) -> (r: String)
        ensures
            r@ == spec_message(*self),
    {
        match self {
            FanqieError::ConfigLoad(s) => {
                let mut m = "config load failed: ".to_owned();
                m.append(s.as_str());
                m
            },
            FanqieError::ConfigNotFound(s) => {
                let mut m = "config file not found: ".to_owned();
                m.append(s.as_str());
                m
            },
            FanqieError::ApiRequest(s) => {
                let mut m = "api request failed: ".to_owned();
                m.append(s.as_str());
                m
            },
            FanqieError::ApiNodeUnavailable(s) => {
                let mut m = "api node unavailable: ".to_owned();
                m.append(s.as_str());
                m
            },
            FanqieError::AllNodesUnavailable => "all api nodes unavailable".to_owned(),
            FanqieError::BookNotFound(s) => {
                let mut m = "book not found or delisted: ".to_owned();
                m.append(s.as_str());
                m
            },
            FanqieError::ChapterFetch(s) => {
                let mut m = "chapter fetch failed: ".to_owned();
                m.append(s.as_str());
                m
            },
            FanqieError::Download(s) => {
                let mut m = "download failed: ".to_owned();
                m.append(s.as_str());
                m
            },
            FanqieError::FileWrite(s) => {
                let mut m = "file write failed: ".to_owned();
                m.append(s.as_str());
                m
            },
            FanqieError::EpubGeneration(s) => {
                let mut m = "epub generation failed: ".to_owned();
                m.append(s.as_str());
                m
            },
            FanqieError::InvalidBookId(s) => {
                let mut m = "invalid book id: ".to_owned();
                m.append(s.as_str());
                m
            },
            FanqieError::SearchNoResult(s) => {
                let mut m = "no search results: ".to_owned();
                m.append(s.as_str());
                m
            },
            FanqieError::Network(s) => {
                let mut m = "network error: ".to_owned();
                m.append(s.as_str());
                m
            },
            FanqieError::JsonParse(s) => {
                let mut m = "json parse error: ".to_owned();
                m.append(s.as_str());
                m
            },
            FanqieError::Io(s) => {
                let mut m = "io error: ".to_owned();
                m.append(s.as_str());
                m
            },
            FanqieError::Timeout => "request timed out".to_owned(),
            FanqieError::RateLimited => "rate limited".to_owned(),
        }
    }
}

} // verus!
