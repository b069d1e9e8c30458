//! Client-side logic for a torrent daemon's JSON-RPC web API: request
//! envelopes, response decoding, the wire codecs of each result type, and the
//! rate gate that every outbound request passes through.
//!
//! Sending requests and reading responses is left to the caller: the library
//! builds what is to be sent, decides when it may be sent, and decodes what
//! came back.
pub mod json;
pub mod codec;
pub mod error;
pub mod response;
pub mod request;
pub mod rate_gate;
pub mod options;
pub mod add_torrents;
pub mod get_host_status;
pub mod get_hosts;
pub mod get_interface;
pub mod get_torrent_status;
pub mod get_torrents;
