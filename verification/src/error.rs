//! The failures of a conversion.

use vstd::prelude::*;
use vstd::string::*;

verus! {

/// What went wrong.
#[derive(Clone, Copy, Debug, PartialEq, Eq, Structural)]
pub enum ErrorKind {
    /// The exam format descriptor is no JSON, or does not match the schema.
    Parse,
    /// The input bytes are not an image that can be read.
    Decode,
    /// The converted image could not be written out.
    Encode,
}

/// A failed conversion: its kind and a message for the caller.
#[derive(Clone, Debug)]
pub struct ConvertError {
    pub kind: ErrorKind,
    pub message: String,
}

/// How the message of an error of each kind begins.
pub open spec fn message_prefix(kind: ErrorKind) -> Seq<char> {
    match kind {
        ErrorKind::Parse => "Failed to parse exam format: "@,
        ErrorKind::Decode => "Failed to load image: "@,
        ErrorKind::Encode => "Failed to encode image: "@,
    }
}

/// Whether the message of an error begins with the prefix of its kind.
pub open spec fn well_prefixed(error: ConvertError) -> bool {
    let prefix = message_prefix(error.kind);
    error.message@.len() >= prefix.len() && error.message@.subrange(0, prefix.len() as int) == prefix
}

/// A message made of the prefix of its kind and a cause begins with the
/// prefix.
pub proof fn lemma_prefixed(error: ConvertError, cause: Seq<char>)
    requires
        error.message@ == message_prefix(error.kind) + cause,
    ensures
        well_prefixed(error),
{
    let prefix = message_prefix(error.kind);
    assert(error.message@.subrange(0, prefix.len() as int) =~= prefix);
}

impl ConvertError {
    /// An error of the given kind whose message names the cause.
    pub fn new(kind: ErrorKind, cause: &str) -> (error: ConvertError)
        ensures
            error.kind == kind,
            error.message@ == message_prefix(kind) + cause@,
            well_prefixed(error),
    {
        proof {
            let prefix = message_prefix(kind);
            assert((prefix + cause@).subrange(0, prefix.len() as int) =~= prefix);
        }
        let prefix = match kind {
            ErrorKind::Parse => "Failed to parse exam format: ",
            ErrorKind::Decode => "Failed to load image: ",
            ErrorKind::Encode => "Failed to encode image: ",
        };
        ConvertError { kind, message: String::from_str(prefix).concat(cause) }
    }
}

} // verus!
