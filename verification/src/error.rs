use vstd::prelude::*;

use base64::DecodeError as Base64DecodeError;
use core::str::Utf8Error;
use prost::DecodeError as ProtoDecodeError;
use prost::EncodeError as ProtoEncodeError;
use serde_json::Error as JsonError;

verus! {

#[verifier::external_type_specification]
#[verifier::external_body]
pub struct ExBase64DecodeError(Base64DecodeError);

#[verifier::external_type_specification]
#[verifier::external_body]
pub struct ExUtf8Error(Utf8Error);

#[verifier::external_type_specification]
#[verifier::external_body]
pub struct ExJsonError(JsonError);

#[verifier::external_type_specification]
#[verifier::external_body]
pub struct ExProtoEncodeError(ProtoEncodeError);

#[verifier::external_type_specification]
#[verifier::external_body]
pub struct ExProtoDecodeError(ProtoDecodeError);

/// Why a request could not be encoded for the chain.
#[derive(Debug)]
pub enum EncodeError {
    ProtoEncodeError(ProtoEncodeError),
    JsonEncodeError(JsonError),
}

/// Why a reply of the chain could not be decoded.
#[derive(Debug)]
pub enum DecodeError {
    Utf8Error(Utf8Error),
    ProtoDecodeError(ProtoDecodeError),
    JsonDecodeError(JsonError),
    Base64DecodeError(Base64DecodeError),
    SigningKeyDecodeError { msg: String },
}

/// Why a call on the test chain failed.
#[derive(Debug)]
pub enum RunnerError {
    EncodeError(EncodeError),
    DecodeError(DecodeError),
    QueryError { msg: String },
    ExecuteError { msg: String },
    GenericError(String),
}

impl From<EncodeError> for RunnerError {
    fn from(err: EncodeError) -> (wrapped: RunnerError) {
        RunnerError::EncodeError(err)
    }
}

impl vstd::std_specs::convert::FromSpecImpl<EncodeError> for RunnerError {
    open spec fn obeys_from_spec() -> bool {
        true
    }

    open spec fn from_spec(err: EncodeError) -> RunnerError {
        RunnerError::EncodeError(err)
    }
}

impl From<DecodeError> for RunnerError {
    fn from(err: DecodeError) -> (wrapped: RunnerError) {
        RunnerError::DecodeError(err)
    }
}

impl vstd::std_specs::convert::FromSpecImpl<DecodeError> for RunnerError {
    open spec fn obeys_from_spec() -> bool {
        true
    }

    open spec fn from_spec(err: DecodeError) -> RunnerError {
        RunnerError::DecodeError(err)
    }
}

} // verus!
