//! The error taxonomy of a run, with the exact user-facing message of
//! each variant.

use vstd::prelude::*;
use vstd::string::{StrSliceExecFns, StringExecFns};
use crate::text::{append_u64, dec_digits};

verus! {

/// Everything that can go wrong in one run: a bad argument count, a user
/// the remote side does not know, an unexpected HTTP status, a body that
/// does not decode, or a network-level failure.
#[derive(Debug)]
pub enum AppError {
    ArgumentError,
    UserNotFound,
    UnexpectedStatus(u16),
    DecodeError(String),
    TransportError(String),
}

/// The user-facing message of each error variant.
pub open spec fn spec_message(e: AppError) -> Seq<char> {
    match e {
        AppError::ArgumentError => "Invalid number of arguments. Only one argument is needed (the username)."@,
        AppError::UserNotFound => "User does not exist."@,
        AppError::UnexpectedStatus(c) => "Unable to retrieve events. Status code: "@ + dec_digits(
            c as nat,
        ) + "."@,
        AppError::DecodeError(s) => s@,
        AppError::TransportError(s) => s@,
    }
}

/// The single line a failed run prints.
pub open spec fn spec_error_report(e: AppError) -> Seq<char> {
    "Application error: "@ + spec_message(e)
}

impl AppError {
    /// The message a failed run prints for this error.
    pub fn message(&self) -> (r: String)
        ensures
            r@ == spec_message(*self),
    {
        match self {
            AppError::ArgumentError => String::from_str(
                "Invalid number of arguments. Only one argument is needed (the username).",
            ),
            AppError::UserNotFound => String::from_str("User does not exist."),
            AppError::UnexpectedStatus(c) => {
                let mut s = String::from_str("Unable to retrieve events. Status code: ");
                append_u64(&mut s, *c as u64);
                s.append(".");
                proof {
                    assert(s@ =~= spec_message(*self));
                }
                s
            },
            AppError::DecodeError(s) => s.clone(),
            AppError::TransportError(s) => s.clone(),
        }
    }

    /// The full line a failed run prints for this error.
    pub fn report_line(&self) -> (r: String)
        ensures
            r@ == spec_error_report(*self),
    {
        let mut s = String::from_str("Application error: ");
        let m = self.message();
        s.append(m.as_str());
        proof {
            assert(s@ =~= spec_error_report(*self));
        }
        s
    }
}

} // verus!
