//! The ways in which decoding a header can fail.

use vstd::prelude::*;
use vstd::string::StringExecFns;

verus! {

/// Why a buffer was not accepted as an ELF header.
///
/// Every failure stands for exactly one check: the first one, in field
/// order, that the buffer did not pass.
#[derive(Debug, PartialEq, Eq)]
pub enum ElfParseError {
    /// The buffer is shorter than the record it should hold.
    InvalidSize,
    /// The first four bytes are not the ELF signature.
    InvalidMagic,
    /// The class byte names no known object class.
    InvalidClass,
    /// The data-encoding byte names no known byte order.
    InvalidData,
    /// A version field names no known version.
    InvalidVersion,
    /// The OS/ABI byte is neither known nor reserved.
    InvalidOsAbi,
    /// The object-type field names no known type.
    InvalidType,
    /// The machine field names no known architecture.
    InvalidMachine,
    /// The OS/ABI byte lies in a range that the format keeps back.
    ReservedOsAbi,
    /// The buffer could not be obtained; the text says why.
    IoError(String),
}

impl ElfParseError {
    /// The one-line description of this error.
    pub open spec fn spec_message(self) -> Seq<char> {
        match self {
            ElfParseError::InvalidSize => "Invalid ELF header size"@,
            ElfParseError::InvalidMagic => "Invalid ELF magic number"@,
            ElfParseError::InvalidClass => "Invalid ELF class"@,
            ElfParseError::InvalidData => "Invalid ELF data encoding"@,
            ElfParseError::InvalidVersion => "Invalid ELF version"@,
            ElfParseError::InvalidOsAbi => "Invalid ELF OS/ABI"@,
            ElfParseError::InvalidType => "Invalid ELF type"@,
            ElfParseError::InvalidMachine => "Invalid ELF machine"@,
            ElfParseError::ReservedOsAbi => "Reserved OS/ABI value"@,
            ElfParseError::IoError(cause) => "IO Error: "@ + cause@,
        }
    }

    /// Renders the one-line description of this error.
    pub fn message(&self) -> (text: String)
        ensures
            text@ == self.spec_message(),
    {
        match self {
            ElfParseError::InvalidSize => String::from_str("Invalid ELF header size"),
            ElfParseError::InvalidMagic => String::from_str("Invalid ELF magic number"),
            ElfParseError::InvalidClass => String::from_str("Invalid ELF class"),
            ElfParseError::InvalidData => String::from_str("Invalid ELF data encoding"),
            ElfParseError::InvalidVersion => String::from_str("Invalid ELF version"),
            ElfParseError::InvalidOsAbi => String::from_str("Invalid ELF OS/ABI"),
            ElfParseError::InvalidType => String::from_str("Invalid ELF type"),
            ElfParseError::InvalidMachine => String::from_str("Invalid ELF machine"),
            ElfParseError::ReservedOsAbi => String::from_str("Reserved OS/ABI value"),
            ElfParseError::IoError(cause) => String::from_str("IO Error: ").concat(cause.as_str()),
        }
    }
}

} // verus!
