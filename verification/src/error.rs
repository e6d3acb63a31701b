//! What can go wrong between a page of the site and a finished archive.

use vstd::prelude::*;
use vstd::string::StringExecFns;
use crate::text::{decimal_digits, decimal_text};

verus! {

/// A page or a script that does not have the shape it should have.
#[derive(Debug, Clone, Copy, PartialEq, Eq, Structural)]
pub enum StructuralFault {
    /// The radix needs more symbols than the key alphabet has.
    RadixTooLarge { radix: usize },
    /// The radix is below two, so no numeral can be written in it.
    RadixTooSmall { radix: usize },
    /// The script announces more dictionary entries than its payload holds.
    DictionaryTooShort { declared: usize, available: usize },
    /// The unpacked script holds no parenthesised object.
    ObjectMissing,
    /// The object is not a document with the fields of a manifest.
    DocumentInvalid,
    /// The first credential is neither a string nor a number.
    CredentialKind,
    /// The chapter page holds no packed script.
    ScriptMissing,
    /// The radix or the dictionary size of the packed script is no number
    /// that this machine can hold.
    NumberInvalid,
    /// A chapter link of the listing lacks its name or its target.
    LinkIncomplete,
    /// A selector that the listing is read with was not accepted.
    SelectorRejected,
    /// The page is longer than any page that is read.
    PageTooLong,
}

/// The failures that the library reports.
#[derive(Debug, Clone, Copy, PartialEq, Eq, Structural)]
pub enum Error {
    /// The reference is neither a number nor a listing address of the site.
    InvalidReference,
    /// The listing page has no title.
    NotFound,
    /// A page or a script is malformed.
    Malformed(StructuralFault),
    /// The dictionary payload cannot be decompressed.
    Decode,
    /// The server answered with a status that is no success.
    Network { status: u16 },
    /// The server could not be reached, or its answer broke off.
    Transport,
    /// A file or a directory could not be looked at, written or moved.
    Filesystem,
    /// Fewer or more bytes were stored than the server announced.
    IncompleteTransfer { expected: u64, written: u64 },
}

impl StructuralFault {
    /// What [`StructuralFault::message`] says of this fault.
    pub open spec fn message_spec(self) -> Seq<char> {
        match self {
            StructuralFault::RadixTooLarge { radix } => "Radix "@ + decimal_digits(radix as nat)
                + " exceeds supported alphabet size (62)"@,
            StructuralFault::RadixTooSmall { radix } => "Radix "@ + decimal_digits(radix as nat)
                + " is below two"@,
            StructuralFault::DictionaryTooShort { declared, available } => "Dictionary of "@
                + decimal_digits(declared as nat) + " entries announced, payload holds "@
                + decimal_digits(available as nat),
            StructuralFault::ObjectMissing => "Could not find JSON data in unpacked script."@,
            StructuralFault::DocumentInvalid => "Unpacked data is not a chapter manifest."@,
            StructuralFault::CredentialKind => "sl.e is not a string or number"@,
            StructuralFault::ScriptMissing => "Could not parse chapter data from the chapter page"@,
            StructuralFault::NumberInvalid => "Radix or dictionary size of the chapter data is out of range"@,
            StructuralFault::LinkIncomplete => "Chapter title or href attribute not found"@,
            StructuralFault::SelectorRejected => "Failed to parse a selector"@,
            StructuralFault::PageTooLong => "Page is too long to be read"@,
        }
    }

    /// Says in words what is wrong; a radix that is out of reach is named.
    pub fn message(&self) -> (text: String)
        ensures
            text@ == self.message_spec(),
    {
        match self {
            StructuralFault::RadixTooLarge { radix } => String::from_str("Radix ").concat(
                decimal_text(*radix as u64).as_str(),
            ).concat(" exceeds supported alphabet size (62)"),
            StructuralFault::RadixTooSmall { radix } => String::from_str("Radix ").concat(
                decimal_text(*radix as u64).as_str(),
            ).concat(" is below two"),
            StructuralFault::DictionaryTooShort { declared, available } => String::from_str(
                "Dictionary of ",
            ).concat(decimal_text(*declared as u64).as_str()).concat(
                " entries announced, payload holds ",
            ).concat(decimal_text(*available as u64).as_str()),
            StructuralFault::ObjectMissing => String::from_str(
                "Could not find JSON data in unpacked script.",
            ),
            StructuralFault::DocumentInvalid => String::from_str(
                "Unpacked data is not a chapter manifest.",
            ),
            StructuralFault::CredentialKind => String::from_str("sl.e is not a string or number"),
            StructuralFault::ScriptMissing => String::from_str(
                "Could not parse chapter data from the chapter page",
            ),
            StructuralFault::NumberInvalid => String::from_str(
                "Radix or dictionary size of the chapter data is out of range",
            ),
            StructuralFault::LinkIncomplete => String::from_str(
                "Chapter title or href attribute not found",
            ),
            StructuralFault::SelectorRejected => String::from_str("Failed to parse a selector"),
            StructuralFault::PageTooLong => String::from_str("Page is too long to be read"),
        }
    }
}

impl Error {
    /// What [`Error::message`] says of this failure.
    pub open spec fn message_spec(self) -> Seq<char> {
        match self {
            Error::InvalidReference => "Invalid manhuagui URL or ID"@,
            Error::NotFound => "Could not find the title of the comic"@,
            Error::Malformed(fault) => "Content parsing error: "@ + fault.message_spec(),
            Error::Decode => "Failed to decode base64 chapter data"@,
            Error::Network { status } => "Network request error: status "@ + decimal_digits(
                status as nat,
            ),
            Error::Transport => "Network request error: transport failed"@,
            Error::Filesystem => "I/O error"@,
            Error::IncompleteTransfer { expected, written } => "Incomplete transfer: expected "@
                + decimal_digits(expected as nat) + " bytes, wrote "@ + decimal_digits(
                written as nat,
            ),
        }
    }

    /// Says in words what failed.
    pub fn message(&self) -> (text: String)
        ensures
            text@ == self.message_spec(),
    {
        match self {
            Error::InvalidReference => String::from_str("Invalid manhuagui URL or ID"),
            Error::NotFound => String::from_str("Could not find the title of the comic"),
            Error::Malformed(fault) => String::from_str("Content parsing error: ").concat(
                fault.message().as_str(),
            ),
            Error::Decode => String::from_str("Failed to decode base64 chapter data"),
            Error::Network { status } => String::from_str("Network request error: status ").concat(
                decimal_text(*status as u64).as_str(),
            ),
            Error::Transport => String::from_str("Network request error: transport failed"),
            Error::Filesystem => String::from_str("I/O error"),
            Error::IncompleteTransfer { expected, written } => String::from_str(
                "Incomplete transfer: expected ",
            ).concat(decimal_text(*expected).as_str()).concat(" bytes, wrote ").concat(
                decimal_text(*written).as_str(),
            ),
        }
    }
}

} // verus!
