//! Encoder and decoder for the bulk write protocol of a document store.
//!
//! A batch of write actions is rendered as newline-delimited JSON, two lines
//! per action at most, and the store's answer is decoded into one typed result
//! per action, in the order of the batch.
//!
//! - `action`: the actions, their metadata, and the lines of each;
//! - `request`: a batch with its URL and body;
//! - `result`: the store's answer, read from JSON;
//! - `options`, `units`, `object`, `text`: the parts that the wire format is
//!   written with;
//! - `error`: what can go wrong;
//! - `json`: the calls into `serde_json`, which are believed, not proved.
//!
//! The library sends nothing. A caller posts the body of a `BulkRequest` to
//! its URL and hands the status and the body of the answer to
//! `BulkResult::from_response`.

pub mod action;
pub mod error;
pub mod json;
pub mod object;
pub mod options;
pub mod request;
pub mod result;
pub mod text;
pub mod units;
