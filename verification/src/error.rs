//! The errors of the library.
//!
//! A batch whose actions the store refused one by one is no error: it is a
//! result whose `errors` flag is set.

use vstd::prelude::*;
use vstd::string::StringExecFns;
use crate::text::{decimal, push_decimal, str_view, string_view};

verus! {

/// A place in the store's answer that a decoding error speaks of.
#[derive(Clone, Copy, Debug, PartialEq, Eq, Structural)]
pub enum Field {
    /// The answer as a whole.
    Response,
    /// `took`, the time the store spent.
    Took,
    /// `errors`, the flag that some action failed.
    Errors,
    /// `items`, the list of per-action results.
    Items,
    /// One element of `items`.
    Item,
    /// The single member of an item, keyed by the action's verb.
    Verb,
    /// `_index`.
    Index,
    /// `_type`.
    DocType,
    /// `_version`.
    Version,
    /// `status`.
    Status,
    /// `_shards`.
    Shards,
    /// `total` under `_shards`.
    ShardsTotal,
    /// `successful` under `_shards`.
    ShardsSuccessful,
    /// `failed` under `_shards`.
    ShardsFailed,
    /// `found`.
    Found,
}

/// Why the store's answer, though it is JSON, is not a bulk result.
#[derive(Debug, PartialEq, Eq)]
pub enum DecodeError {
    /// The member is absent. For `Field::Verb`: an item does not hold exactly
    /// one member.
    MissingField { field: Field },
    /// The member is there but is not of the JSON type that it must have.
    InvalidType { field: Field },
    /// The single key of an item is none of the four verbs.
    UnrecognizedVerb { key: String },
}

/// A decoding error with the item's key as plain characters.
pub enum DecodeErrorView {
    MissingField { field: Field },
    InvalidType { field: Field },
    UnrecognizedVerb { key: Seq<char> },
}

impl View for DecodeError {
    type V = DecodeErrorView;

    open spec fn view(&self) -> DecodeErrorView {
        match *self {
            DecodeError::MissingField { field } => DecodeErrorView::MissingField { field },
            DecodeError::InvalidType { field } => DecodeErrorView::InvalidType { field },
            DecodeError::UnrecognizedVerb { key } => DecodeErrorView::UnrecognizedVerb { key: key@ },
        }
    }
}

/// Everything that can go wrong between a batch and its result.
#[derive(Debug)]
pub enum EsError {
    /// The library was used in a way that it cannot serve: an update without
    /// one clear choice of what to write, or an answer with a status that is
    /// a success but not the one that a bulk request is answered with.
    EsError { details: String },
    /// The store answered with a status that is no success. `body` is the
    /// answer's raw body, or `None` where it could not be read.
    EsServerError { status: u16, body: Option<String> },
    /// The action at this position of the batch could not be written as JSON,
    /// for the reason given. No part of the batch was encoded.
    EncodeError { index: usize, source: serde_json::Error },
    /// A text could not be read as JSON, or a value could not be written as
    /// JSON: the store's answer is not JSON, or an action that was to be
    /// added to a body cannot be written.
    JsonError { source: serde_json::Error },
    /// The store's answer is JSON but not a bulk result.
    DecodeError { error: DecodeError },
}

/// The details of a server error: the status, a dash, and the raw body, or a
/// note that the body could not be read.
pub open spec fn server_details(status: u16, body: Option<Seq<char>>) -> Seq<char> {
    decimal(status as nat) + " - "@ + match body {
        Some(text) => text,
        None => "cannot read response"@,
    }
}

impl EsError {
    /// The error for an answer whose status is no success. `body` is the
    /// answer's raw body, or `None` where it could not be read.
    pub fn from_response(status: u16, body: Option<&str>) -> (e: EsError)
        ensures
            e matches EsError::EsServerError { status: s, body: b } && s == status && string_view(b)
                == str_view(body),
    {
        let body = match body {
            Some(text) => Some(text.to_owned()),
            None => None,
        };
        EsError::EsServerError { status, body }
    }

    /// The details of the error in one line, where it has any: those of an
    /// internal error as they are, those of a server error made of its status
    /// and body.
    pub fn details(&self) -> (r: Option<String>)
        ensures
            match *self {
                EsError::EsError { details } => string_view(r) == Some(details@),
                EsError::EsServerError { status, body } => string_view(r) == Some(
                    server_details(status, string_view(body)),
                ),
                _ => r is None,
            },
    {
        match self {
            EsError::EsError { details } => Some(details.clone()),
            EsError::EsServerError { status, body } => {
                let mut details = String::new();
                push_decimal(&mut details, *status as u64);
                details.append(" - ");
                match body {
                    Some(text) => details.append(text.as_str()),
                    None => details.append("cannot read response"),
                }
                Some(details)
            },
            _ => None,
        }
    }
}

} // verus!
