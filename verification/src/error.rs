//! The errors of the harness.
use vstd::prelude::*;
use vstd::string::*;

verus! {

/// What an operation of the harness gives.
pub type BenchmarkResult<T> = Result<T, BenchmarkError>;

/// Why an operation of the harness failed. Where another library was the cause, the
/// variant holds what that library said, as text.
#[derive(Debug, PartialEq, Eq)]
pub enum BenchmarkError {
    IoError(String),
    FailedToSpawnProcessError(String, String),
    Neo4rsError(String),
    Neo4rsDeError(String),
    HistogramError(String),
    ReqwestError(String),
    FailedToDownloadFileError(String),
    FalkorDBError(String),
    IbexDBError(String),
    RedisError(String),
    SerdeError(String),
    ProcessNofFoundError(String),
    TokioSendError(String),
    TokioElapsed(String),
    OtherError(String),
}

impl BenchmarkError {
    /// The message that stands for the error.
    pub open spec fn message(&self) -> Seq<char> {
        match self {
            BenchmarkError::IoError(e) => "IO error: "@ + e@,
            BenchmarkError::FailedToSpawnProcessError(e, context) => "Failed to start Neo4j: "@ + e@
                + " "@ + context@,
            BenchmarkError::Neo4rsError(e) => "Neo4j client error: "@ + e@,
            BenchmarkError::Neo4rsDeError(e) => "Neo4j de serialization error: "@ + e@,
            BenchmarkError::HistogramError(e) => "histogram error: "@ + e@,
            BenchmarkError::ReqwestError(e) => "Reqwest client error: "@ + e@,
            BenchmarkError::FailedToDownloadFileError(e) => "Failed to download a file error: "@
                + e@,
            BenchmarkError::FalkorDBError(e) => "FalkorDB error: "@ + e@,
            BenchmarkError::IbexDBError(e) => "IbexDB error: "@ + e@,
            BenchmarkError::RedisError(e) => "Redis error: "@ + e@,
            BenchmarkError::SerdeError(e) => "Serde error: "@ + e@,
            BenchmarkError::ProcessNofFoundError(name) => "Process with name "@ + name@
                + " not found"@,
            BenchmarkError::TokioSendError(e) => "Tokio send error: "@ + e@,
            BenchmarkError::TokioElapsed(e) => "Tokio elapsed error: "@ + e@,
            BenchmarkError::OtherError(e) => "Other error: "@ + e@,
        }
    }

    /// The message that stands for the error.
    pub fn to_string(&self) -> (s: String)
        ensures
            s@ == self.message(),
    {
        match self {
            BenchmarkError::IoError(e) => "IO error: ".to_string().concat(e.as_str()),
            BenchmarkError::FailedToSpawnProcessError(e, context) => {
                "Failed to start Neo4j: ".to_string().concat(e.as_str()).concat(" ").concat(
                    context.as_str(),
                )
            },
            BenchmarkError::Neo4rsError(e) => "Neo4j client error: ".to_string().concat(e.as_str()),
            BenchmarkError::Neo4rsDeError(e) => {
                "Neo4j de serialization error: ".to_string().concat(e.as_str())
            },
            BenchmarkError::HistogramError(e) => "histogram error: ".to_string().concat(e.as_str()),
            BenchmarkError::ReqwestError(e) => "Reqwest client error: ".to_string().concat(
                e.as_str(),
            ),
            BenchmarkError::FailedToDownloadFileError(e) => {
                "Failed to download a file error: ".to_string().concat(e.as_str())
            },
            BenchmarkError::FalkorDBError(e) => "FalkorDB error: ".to_string().concat(e.as_str()),
            BenchmarkError::IbexDBError(e) => "IbexDB error: ".to_string().concat(e.as_str()),
            BenchmarkError::RedisError(e) => "Redis error: ".to_string().concat(e.as_str()),
            BenchmarkError::SerdeError(e) => "Serde error: ".to_string().concat(e.as_str()),
            BenchmarkError::ProcessNofFoundError(name) => {
                "Process with name ".to_string().concat(name.as_str()).concat(" not found")
            },
            BenchmarkError::TokioSendError(e) => "Tokio send error: ".to_string().concat(e.as_str()),
            BenchmarkError::TokioElapsed(e) => "Tokio elapsed error: ".to_string().concat(
                e.as_str(),
            ),
            BenchmarkError::OtherError(e) => "Other error: ".to_string().concat(e.as_str()),
        }
    }

    /// Whether this is the error of the harness itself with the given text.
    pub open spec fn is_other(&self, text: Seq<char>) -> bool {
        self matches BenchmarkError::OtherError(e) && e@ == text
    }
}

/// The error of the harness itself with the given text.
pub fn other_error(text: &str) -> (e: BenchmarkError)
    ensures
        e.is_other(text@),
{
    BenchmarkError::OtherError(text.to_string())
}

} // verus!
