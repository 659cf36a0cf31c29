//! The one error type that every storage operation reports.

use crate::decimal::{decimal, push_decimal, push_signed_decimal, signed_decimal};
use vstd::prelude::*;
use vstd::string::StringExecFns;

verus! {

/// `std::io::Error`, carried as the cause of an input/output failure. Nothing
/// is claimed about what such a value holds.
#[verifier::external_type_specification]
#[verifier::external_body]
pub struct ExIoError(std::io::Error);

/// What went wrong in a storage operation.
#[derive(Debug)]
pub enum RandomAccessError {
    /// The requested offset or range lies beyond what the storage holds or
    /// can hold.
    OutOfBounds {
        /// The offset that was asked for.
        offset: u64,
        /// Where the range ends, if a range was asked for.
        end: Option<u64>,
        /// The length that was exceeded.
        length: u64,
    },
    /// The backend failed underneath.
    IO {
        /// The platform's return code, if there is one.
        return_code: Option<i32>,
        /// A note on what was being done.
        context: Option<String>,
        /// The failure itself.
        source: std::io::Error,
    },
}

impl From<std::io::Error> for RandomAccessError {
    /// Wraps an input/output failure, with neither return code nor context.
    fn from(err: std::io::Error) -> (error: Self) {
        RandomAccessError::IO { return_code: None, context: None, source: err }
    }
}

impl vstd::std_specs::convert::FromSpecImpl<std::io::Error> for RandomAccessError {
    open spec fn obeys_from_spec() -> bool {
        true
    }

    open spec fn from_spec(err: std::io::Error) -> Self {
        RandomAccessError::IO { return_code: None, context: None, source: err }
    }
}

/// The words that open the message of an out-of-bounds error: whether a
/// single offset or a whole range was refused.
pub open spec fn subject_text(end: Option<u64>) -> Seq<char> {
    if end is Some {
        "Range"@
    } else {
        "Offset"@
    }
}

/// The tail of the message of an out-of-bounds error: two dots and the end
/// of the range, where a range was asked for.
pub open spec fn range_tail_text(end: Option<u64>) -> Seq<char> {
    match end {
        Some(end) => ".."@ + decimal(end as nat),
        None => Seq::empty(),
    }
}

/// The sentence on the platform's return code, where there is one.
pub open spec fn return_code_text(return_code: Option<i32>) -> Seq<char> {
    match return_code {
        Some(code) => " Return code: "@ + signed_decimal(code as int) + "."@,
        None => Seq::empty(),
    }
}

/// The sentence on the context, where there is one.
pub open spec fn context_text(context: Option<Seq<char>>) -> Seq<char> {
    match context {
        Some(context) => " Context: "@ + context + "."@,
        None => Seq::empty(),
    }
}

/// The message of an out-of-bounds error: whether an offset or a range was
/// refused, the length that was exceeded, and the offset or range itself.
pub open spec fn out_of_bounds_text(offset: u64, end: Option<u64>, length: u64) -> Seq<char> {
    subject_text(end) + " out of bounds. "@ + decimal(length as nat) + " < "@ + decimal(
        offset as nat,
    ) + range_tail_text(end)
}

/// The message of an input/output failure: that it happened, then the
/// return code and the context as far as they are known.
pub open spec fn io_text(return_code: Option<i32>, context: Option<Seq<char>>) -> Seq<char> {
    "Unrecoverable input/output error occured."@ + return_code_text(return_code) + context_text(
        context,
    )
}

/// The message of an out-of-bounds error with these fields.
pub fn out_of_bounds_message(offset: u64, end: Option<u64>, length: u64) -> (text: String)
    ensures
        text@ == out_of_bounds_text(offset, end, length),
{
    let mut text = match end {
        Some(_) => String::from_str("Range"),
        None => String::from_str("Offset"),
    };
    text.append(" out of bounds. ");
    push_decimal(&mut text, length);
    text.append(" < ");
    push_decimal(&mut text, offset);
    match end {
        Some(end) => {
            text.append("..");
            push_decimal(&mut text, end);
        },
        None => {},
    }
    assert(text@ =~= out_of_bounds_text(offset, end, length));
    text
}

/// The message of an input/output failure with this return code and this
/// context.
pub fn io_message(return_code: Option<i32>, context: Option<&str>) -> (text: String)
    ensures
        text@ == io_text(
            return_code,
            match context {
                Some(context) => Some(context@),
                None => None,
            },
        ),
{
    let mut text = String::from_str("Unrecoverable input/output error occured.");
    match return_code {
        Some(code) => {
            text.append(" Return code: ");
            push_signed_decimal(&mut text, code);
            text.append(".");
        },
        None => {},
    }
    match context {
        Some(context) => {
            text.append(" Context: ");
            text.append(context);
            text.append(".");
        },
        None => {},
    }
    assert(text@ =~= io_text(
        return_code,
        match context {
            Some(context) => Some(context@),
            None => None,
        },
    ));
    text
}

impl RandomAccessError {
    /// The message of this error, as a sequence of characters.
    pub open spec fn message_text(&self) -> Seq<char> {
        match *self {
            RandomAccessError::OutOfBounds { offset, end, length } => out_of_bounds_text(
                offset,
                end,
                length,
            ),
            RandomAccessError::IO { return_code, context, .. } => io_text(
                return_code,
                match context {
                    Some(context) => Some(context@),
                    None => None,
                },
            ),
        }
    }

    /// The message of this error: what was out of bounds and by how much, or
    /// that input/output failed, with the return code and the context as far
    /// as they are known.
    pub fn message(&self) -> (text: String)
        ensures
            text@ == self.message_text(),
    {
        match self {
            RandomAccessError::OutOfBounds { offset, end, length } => out_of_bounds_message(
                *offset,
                *end,
                *length,
            ),
            RandomAccessError::IO { return_code, context, .. } => match context {
                Some(context) => io_message(*return_code, Some(context.as_str())),
                None => io_message(*return_code, None),
            },
        }
    }
}

} // verus!
