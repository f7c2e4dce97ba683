use benchmark::error::{other_error, BenchmarkError};

#[test]
fn each_error_has_its_message() {
    let s = |t: &str| t.to_string();
    let cases: Vec<(BenchmarkError, &str)> = vec![
        (BenchmarkError::IoError(s("x")), "IO error: x"),
        (
            BenchmarkError::FailedToSpawnProcessError(s("x"), s("y")),
            "Failed to start Neo4j: x y",
        ),
        (BenchmarkError::Neo4rsError(s("x")), "Neo4j client error: x"),
        (BenchmarkError::Neo4rsDeError(s("x")), "Neo4j de serialization error: x"),
        (BenchmarkError::HistogramError(s("x")), "histogram error: x"),
        (BenchmarkError::ReqwestError(s("x")), "Reqwest client error: x"),
        (
            BenchmarkError::FailedToDownloadFileError(s("x")),
            "Failed to download a file error: x",
        ),
        (BenchmarkError::FalkorDBError(s("x")), "FalkorDB error: x"),
        (BenchmarkError::IbexDBError(s("x")), "IbexDB error: x"),
        (BenchmarkError::RedisError(s("x")), "Redis error: x"),
        (BenchmarkError::SerdeError(s("x")), "Serde error: x"),
        (BenchmarkError::ProcessNofFoundError(s("x")), "Process with name x not found"),
        (BenchmarkError::TokioSendError(s("x")), "Tokio send error: x"),
        (BenchmarkError::TokioElapsed(s("x")), "Tokio elapsed error: x"),
        (BenchmarkError::OtherError(s("x")), "Other error: x"),
    ];
    for (error, message) in cases {
        assert_eq!(error.to_string(), message);
    }
}

#[test]
fn errors_of_the_harness_hold_their_text() {
    assert_eq!(other_error("why"), BenchmarkError::OtherError("why".to_string()));
}
