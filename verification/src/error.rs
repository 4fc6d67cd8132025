//! The library's error type: every error names the stage it arose in.
use vstd::prelude::*;

use crate::text::{chars_to_string, decimal, extend_chars, extend_with_str, push_decimal, str_to_chars};

verus! {

/// An error with the stage it arose in.
#[derive(Debug)]
pub enum Error {
    /// A configuration or input problem.
    Config { stage: &'static str, message: String },
    /// An HTTP status of 400 or above.
    Http { status_code: u16, stage: &'static str },
    /// Any other failure (I/O, parse).
    Other { stage: &'static str, message: String },
}

impl Error {
    /// The stage the error arose in.
    pub fn stage(&self) -> (r: &'static str)
        ensures
            r == error_stage(*self),
    {
        match self {
            Error::Config { stage, .. } => stage,
            Error::Http { stage, .. } => stage,
            Error::Other { stage, .. } => stage,
        }
    }
}

/// How an error reads in logs and status texts: `stage: message`, or `stage: HTTP status`.
pub open spec fn error_text(e: Error) -> Seq<char> {
    match e {
        Error::Config { stage, message } => stage@ + ": "@ + message@,
        Error::Http { status_code, stage } => stage@ + ": HTTP "@ + decimal(status_code as nat),
        Error::Other { stage, message } => stage@ + ": "@ + message@,
    }
}

impl Error {
    /// The error as text (see `error_text`).
    pub fn describe(&self) -> (r: String)
        ensures
            r@ == error_text(*self),
    {
        let mut v: Vec<char> = Vec::new();
        match self {
            Error::Config { stage, message } => {
                extend_with_str(&mut v, stage);
                extend_with_str(&mut v, ": ");
                extend_with_str(&mut v, message.as_str());
            },
            Error::Http { status_code, stage } => {
                extend_with_str(&mut v, stage);
                extend_with_str(&mut v, ": HTTP ");
                push_decimal(&mut v, *status_code as u64);
            },
            Error::Other { stage, message } => {
                extend_with_str(&mut v, stage);
                extend_with_str(&mut v, ": ");
                extend_with_str(&mut v, message.as_str());
            },
        }
        chars_to_string(&v)
    }
}

pub open spec fn error_stage(e: Error) -> &'static str {
    match e {
        Error::Config { stage, .. } => stage,
        Error::Http { stage, .. } => stage,
        Error::Other { stage, .. } => stage,
    }
}

} // verus!
