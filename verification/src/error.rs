//! Errors of fixture generation.
use http::header::{InvalidHeaderName, InvalidHeaderValue};
use vstd::prelude::*;

verus! {

/// Errors of witness and fixture generation. Where the cause is an I/O or
/// serialisation failure, the variant holds that failure's message.
#[derive(Debug)]
pub enum WGError {
    /// Reading a fixture file failed.
    ReadFixtureError { path: String, source: String },
    /// The EEST fixtures path does not exist.
    EestPathNotFound(String),
    /// The EEST fixtures path is not a directory.
    EestPathNotDirectory(String),
    /// The download script for the EEST fixtures failed; holds its stderr.
    DownloadScriptFailed(String),
    /// The test suite folder does not exist.
    TestSuitePathNotFound(String),
    /// A test case file could not be loaded.
    TestCaseLoadError { path: String, source: String },
    /// A test case produced no block.
    NoTargetBlock(String),
    /// Running a test case failed.
    TestCaseExecutionError { source: String },
    /// A fixture could not be serialised.
    FixtureSerializationError { name: String, source: String },
    /// A fixture could not be written.
    FixtureWriteError { path: String, source: String },
    /// An RPC call failed.
    RpcError(String),
    /// The node did not report a chain id.
    ChainIdFetchError,
    /// The node's chain is not one of the supported networks.
    UnsupportedChain(u64),
    /// `generate` was asked of a generator set up for live polling.
    LivePollingNotSupported,
    /// The node did not return its latest block.
    LatestBlockFetchError,
    /// No block was found for the number.
    BlockNotFoundForNumber(u64),
    /// No block was found for the hash.
    BlockNotFoundForHash(String),
    /// Live polling needs a cancellation token.
    CancellationTokenRequired,
    /// A flat header has no ':'.
    InvalidHeaderFormat { header: String },
    /// A flat header's name is not a valid header name.
    InvalidHeaderName { name: String, source: InvalidHeaderName },
    /// A flat header's value is not a valid header value.
    InvalidHeaderValue { value: String, source: InvalidHeaderValue },
    /// Any other failure, by its message.
    Other(String),
}

} // verus!
