//! A typed client for a JSON-RPC 2.0 service: request envelopes are built and
//! response envelopes are classified by verified code over a JSON tree model.
pub mod json;
pub mod codec;
pub mod pipeline;
pub mod client;
