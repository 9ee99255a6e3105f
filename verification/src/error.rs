//! The errors that the gateway itself answers with.

use crate::json::{JsonData, JsonValue};
use crate::text::{decimal_text, joined, write_decimal, write_joined};
use vstd::prelude::*;

verus! {

/// Why the parameters of a call were refused, as a mathematical value.
pub enum InvalidParamsData {
    ExpectedObjectOrArray(JsonData),
    WrongLength { expected: Seq<Seq<char>>, got: nat },
    UnsupportedParameters,
    PaginationNotSupported,
    MissingQuery,
    UnsupportedParameter(JsonData),
    QueryNotString,
    QueryNotKeyValue,
    QueryKeyNotTxHash,
    InvalidTxHash,
}

/// Why the parameters of a call were refused.
#[derive(Debug, PartialEq, Eq)]
pub enum InvalidParams {
    /// The parameters are neither an object nor an array; holds what they are.
    ExpectedObjectOrArray(JsonValue),
    /// Positional parameters of the wrong number: the names of the parameters
    /// that the method expects, and how many were given.
    WrongLength { expected: Vec<String>, got: usize },
    /// A keyed search names one of the parameters that are not supported.
    UnsupportedParameters,
    /// A keyed search asks for another page than the first.
    PaginationNotSupported,
    /// A keyed search has no `query`.
    MissingQuery,
    /// A positional search sets a parameter that must stay `null`; holds its value.
    UnsupportedParameter(JsonValue),
    /// The query of a search is no string.
    QueryNotString,
    /// The query of a search is not of the form `key=value`.
    QueryNotKeyValue,
    /// The query of a search asks for something else than `tx.hash`.
    QueryKeyNotTxHash,
    /// The hash of a search is not made of 64 hexadecimal digits.
    InvalidTxHash,
}

impl View for InvalidParams {
    type V = InvalidParamsData;

    open spec fn view(&self) -> InvalidParamsData {
        match self {
            InvalidParams::ExpectedObjectOrArray(v) => InvalidParamsData::ExpectedObjectOrArray(v@),
            InvalidParams::WrongLength { expected, got } => InvalidParamsData::WrongLength {
                expected: expected.deep_view(),
                got: *got as nat,
            },
            InvalidParams::UnsupportedParameters => InvalidParamsData::UnsupportedParameters,
            InvalidParams::PaginationNotSupported => InvalidParamsData::PaginationNotSupported,
            InvalidParams::MissingQuery => InvalidParamsData::MissingQuery,
            InvalidParams::UnsupportedParameter(v) => InvalidParamsData::UnsupportedParameter(v@),
            InvalidParams::QueryNotString => InvalidParamsData::QueryNotString,
            InvalidParams::QueryNotKeyValue => InvalidParamsData::QueryNotKeyValue,
            InvalidParams::QueryKeyNotTxHash => InvalidParamsData::QueryKeyNotTxHash,
            InvalidParams::InvalidTxHash => InvalidParamsData::InvalidTxHash,
        }
    }
}

/// The message of a refusal. Where the refusal holds a value, the message
/// ends where the value is to be shown.
pub open spec fn message_of(reason: InvalidParamsData) -> Seq<char> {
    match reason {
        InvalidParamsData::ExpectedObjectOrArray(_) => "expected object or array, got "@,
        InvalidParamsData::WrongLength { expected, got } => "expected "@ + decimal_text(
            expected.len(),
        ) + " parameter(s) ["@ + joined(expected, ", "@) + "], got "@ + decimal_text(got),
        InvalidParamsData::UnsupportedParameters => "unsupported parameter(s)"@,
        InvalidParamsData::PaginationNotSupported => "pagination not supported"@,
        InvalidParamsData::MissingQuery => "must provide parameter: query"@,
        InvalidParamsData::UnsupportedParameter(_) => "unsupported parameter: "@,
        InvalidParamsData::QueryNotString => "query must be a string"@,
        InvalidParamsData::QueryNotKeyValue => "query must be in the form key=value"@,
        InvalidParamsData::QueryKeyNotTxHash => "only tx.hash queries are supported"@,
        InvalidParamsData::InvalidTxHash => {
            "tx.hash must be 64 characters long and contain only hex digits"@
        },
    }
}

/// The value that a refusal holds, if it holds one.
pub open spec fn shown_of(reason: InvalidParamsData) -> Option<JsonData> {
    match reason {
        InvalidParamsData::ExpectedObjectOrArray(v) => Some(v),
        InvalidParamsData::UnsupportedParameter(v) => Some(v),
        _ => None,
    }
}

impl InvalidParams {
    /// The message of this refusal. Where the refusal holds a value, the
    /// message ends where the value is to be shown.
    pub fn message(&self) -> (text: String)
        ensures
            text@ == message_of(self@),
    {
        match self {
            InvalidParams::ExpectedObjectOrArray(_) => "expected object or array, got ".to_owned(),
            InvalidParams::WrongLength { expected, got } => {
                let mut text = "expected ".to_owned();
                write_decimal(&mut text, expected.len());
                text.append(" parameter(s) [");
                write_joined(&mut text, expected, ", ");
                text.append("], got ");
                write_decimal(&mut text, *got);
                assert(text@ =~= message_of(self@));
                text
            },
            InvalidParams::UnsupportedParameters => "unsupported parameter(s)".to_owned(),
            InvalidParams::PaginationNotSupported => "pagination not supported".to_owned(),
            InvalidParams::MissingQuery => "must provide parameter: query".to_owned(),
            InvalidParams::UnsupportedParameter(_) => "unsupported parameter: ".to_owned(),
            InvalidParams::QueryNotString => "query must be a string".to_owned(),
            InvalidParams::QueryNotKeyValue => "query must be in the form key=value".to_owned(),
            InvalidParams::QueryKeyNotTxHash => "only tx.hash queries are supported".to_owned(),
            InvalidParams::InvalidTxHash => {
                "tx.hash must be 64 characters long and contain only hex digits".to_owned()
            },
        }
    }

    /// The value that this refusal holds, if it holds one.
    pub fn shown(&self) -> (value: Option<&JsonValue>)
        ensures
            match value {
                Some(v) => shown_of(self@) == Some(v@),
                None => shown_of(self@) is None,
            },
    {
        match self {
            InvalidParams::ExpectedObjectOrArray(v) => Some(v),
            InvalidParams::UnsupportedParameter(v) => Some(v),
            _ => None,
        }
    }
}

/// An error of the gateway, as a mathematical value.
pub enum RpcErrorData {
    MethodNotFound(Seq<char>),
    InvalidParams(InvalidParamsData),
    Custom(Seq<char>),
}

/// An error that the gateway answers a caller with, without asking the
/// upstream node.
#[derive(Debug, PartialEq, Eq)]
pub enum RpcError {
    /// No route has this method name.
    MethodNotFound(String),
    /// The parameters of the call were refused.
    InvalidParams(InvalidParams),
    /// Any other refusal, by its message.
    Custom(String),
}

impl View for RpcError {
    type V = RpcErrorData;

    open spec fn view(&self) -> RpcErrorData {
        match self {
            RpcError::MethodNotFound(m) => RpcErrorData::MethodNotFound(m@),
            RpcError::InvalidParams(p) => RpcErrorData::InvalidParams(p@),
            RpcError::Custom(m) => RpcErrorData::Custom(m@),
        }
    }
}

} // verus!
