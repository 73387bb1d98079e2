//! The ways in which a byte buffer can fail to be a PE image.

use vstd::prelude::*;
use vstd::string::*;
use crate::text::{hex_literal, push_hex};

verus! {

/// Why a buffer was rejected. Each variant names the decoding stage that
/// failed; a failure is final for the load that met it.
#[derive(Debug, Clone, Copy, PartialEq, Eq, Structural)]
pub enum FormatError {
    /// The buffer does not start with `MZ`.
    BadDosMagic,
    /// The bytes at the PE offset are not `PE\0\0`.
    BadPeMagic,
    /// The DOS, COFF or optional header does not fit.
    TruncatedHeader,
    /// The section table runs past the end of the buffer.
    TruncatedSectionTable,
    /// An import descriptor, a thunk array or a hint does not fit.
    TruncatedImportDirectory,
    /// An address of the import table leads nowhere: it lies in no section,
    /// maps outside the buffer, or names a library by the empty string.
    DanglingRva { rva: u64 },
}

impl FormatError {
    /// The name of the failing stage.
    pub open spec fn stage_spec(self) -> Seq<char> {
        match self {
            FormatError::BadDosMagic => "BadDosMagic"@,
            FormatError::BadPeMagic => "BadPeMagic"@,
            FormatError::TruncatedHeader => "TruncatedHeader"@,
            FormatError::TruncatedSectionTable => "TruncatedSectionTable"@,
            FormatError::TruncatedImportDirectory => "TruncatedImportDirectory"@,
            FormatError::DanglingRva { .. } => "DanglingRva"@,
        }
    }

    /// The diagnostic text: a fixed prefix, the stage, and for a dangling
    /// address the address itself.
    pub open spec fn message_spec(self) -> Seq<char> {
        let head = "Failed to parse PE file: "@ + self.stage_spec();
        match self {
            FormatError::DanglingRva { rva } => head + " at "@ + hex_literal(rva as nat),
            _ => head,
        }
    }

    /// The name of the failing stage.
    pub fn stage(&self) -> (s: &'static str)
        ensures
            s@ == self.stage_spec(),
    {
        match self {
            FormatError::BadDosMagic => "BadDosMagic",
            FormatError::BadPeMagic => "BadPeMagic",
            FormatError::TruncatedHeader => "TruncatedHeader",
            FormatError::TruncatedSectionTable => "TruncatedSectionTable",
            FormatError::TruncatedImportDirectory => "TruncatedImportDirectory",
            FormatError::DanglingRva { .. } => "DanglingRva",
        }
    }

    /// Renders the failure for a person to read.
    pub fn message(&self) -> (s: String)
        ensures
            s@ == self.message_spec(),
    {
        let mut out = String::from_str("Failed to parse PE file: ");
        out.append(self.stage());
        match self {
            FormatError::DanglingRva { rva } => {
                out.append(" at ");
                push_hex(&mut out, *rva);
            },
            _ => {},
        }
        out
    }
}

} // verus!
