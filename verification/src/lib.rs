//! A typed front end for an HTTP transfer engine.
//!
//! The crate holds the parts of an HTTP client that decide rather than
//! transfer: the response collectors that the engine drives through its
//! write, read and header callbacks, the parsing of captured header bytes,
//! the mapping of a request to engine options, and the assembly of a
//! response once the engine is done. Every function carries a contract that
//! is checked by Verus.
pub mod abort;
pub mod collector;
pub mod error;
pub mod headers;
pub mod http_client;
pub mod mock_server;
pub mod response;
pub mod speed;
pub mod transfer;
pub mod units;

pub use crate::abort::AbortSignal;
pub use crate::collector::{
    Collector, ExtendedHandler, FileInfo, ReadOutcome, ReadStep, StreamHandler, WriteOutcome,
    WriteStep,
};
pub use crate::error::{Error, HttpFault, Method, RequestFault};
pub use crate::http_client::{
    AsyncPerform, CurlBodyRequest, EngineOption, HttpClient, Request, SyncPerform, Transfer,
};
pub use crate::response::{assemble_response, HttpResponse, TransferReport};
pub use crate::speed::TransferSpeed;
pub use crate::units::{Bps, BytesOffset, FileSize, Mbps};
