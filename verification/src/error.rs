//! What can go wrong in a session.

use vstd::prelude::*;
use vstd::string::StringExecFns;

verus! {

/// Why an operation of the driver failed.
#[derive(Debug, PartialEq, Eq)]
pub enum DeckError {
    /// The root of the device tree is absent.
    EnumerationUnavailable,
    /// No attached device is a deck this driver runs.
    NoSupportedDevice,
    /// A deck was matched, but no raw node was found below it.
    NoRawNode,
    /// Opening, reading or writing the raw node failed; the text says how.
    IoError(String),
    /// The model has no complete image encoding.
    UnsupportedOperation,
}

impl DeckError {
    /// The text of [`DeckError::message`].
    pub open spec fn diagnostic(self) -> Seq<char> {
        match self {
            DeckError::EnumerationUnavailable => "USB device tree is not available"@,
            DeckError::NoSupportedDevice => "no supported deck is attached"@,
            DeckError::NoRawNode => "the deck has no raw node"@,
            DeckError::IoError(detail) => "raw node I/O failed: "@ + detail@,
            DeckError::UnsupportedOperation => "the model has no complete image encoding"@,
        }
    }

    /// A diagnostic that names the precondition that failed.
    pub fn message(&self) -> (text: String)
        ensures
            text@ == self.diagnostic(),
    {
        match self {
            DeckError::EnumerationUnavailable => String::from_str(
                "USB device tree is not available",
            ),
            DeckError::NoSupportedDevice => String::from_str("no supported deck is attached"),
            DeckError::NoRawNode => String::from_str("the deck has no raw node"),
            DeckError::IoError(detail) => String::from_str("raw node I/O failed: ").concat(
                detail.as_str(),
            ),
            DeckError::UnsupportedOperation => String::from_str(
                "the model has no complete image encoding",
            ),
        }
    }
}

} // verus!
