//! The DOS stub pointer, the PE signature, the COFF file header and the
//! optional header, as far as the later stages need them.

use vstd::prelude::*;
use crate::bytes::{le_u16, le_u32, read_u16, read_u32};
use crate::pe::error::FormatError;

verus! {

/// Size of the DOS header; no image is shorter.
pub const DOS_HEADER_SIZE: usize = 64;

/// Where the DOS header stores the offset of the PE signature.
pub const PE_POINTER_OFFSET: usize = 0x3C;

/// Size of the PE signature and the COFF file header that follows it.
pub const COFF_END: u64 = 24;

/// Optional-header magic of a PE32+ image. Any other magic is read as PE32.
pub const MAGIC_PE32_PLUS: u16 = 0x20B;

/// Offset of the import entry of the data-directory array inside a PE32
/// optional header.
pub const IMPORT_ENTRY_PE32: u64 = 104;

/// Offset of the import entry of the data-directory array inside a PE32+
/// optional header.
pub const IMPORT_ENTRY_PE32_PLUS: u64 = 120;

/// What the headers say of the image.
#[derive(Debug, Clone, Copy, PartialEq, Eq, Structural)]
pub struct ParsedHeaders {
    /// COFF machine type.
    pub machine: u16,
    /// Number of entries of the section table.
    pub section_count: u16,
    /// The magic of the optional header.
    pub optional_magic: u16,
    /// Size of the optional header in bytes.
    pub optional_header_size: u16,
    /// File offset of the section table.
    pub section_table_offset: u64,
    /// RVA of the import directory.
    pub import_rva: u32,
    /// Size of the import directory; zero when the image imports nothing.
    pub import_size: u32,
}

/// Size in bytes of one thunk of the import table: 8 in a PE32+ image, else
/// 4.
pub open spec fn thunk_width(pe32_plus: bool) -> int {
    if pe32_plus {
        8
    } else {
        4
    }
}

/// Size in bytes of one thunk of the import table: 8 in a PE32+ image, else
/// 4.
pub fn thunk_len(pe32_plus: bool) -> (n: usize)
    ensures
        n == thunk_width(pe32_plus),
{
    if pe32_plus {
        8
    } else {
        4
    }
}

impl ParsedHeaders {
    /// Whether the image is PE32+, with 8-byte thunks.
    pub open spec fn is_pe32_plus(self) -> bool {
        self.optional_magic == MAGIC_PE32_PLUS
    }

    /// Size in bytes of one thunk of this image.
    pub open spec fn thunk_size_spec(self) -> int {
        thunk_width(self.is_pe32_plus())
    }

    /// Whether the image is PE32+, with 8-byte thunks.
    pub fn pe32_plus(&self) -> (r: bool)
        ensures
            r == self.is_pe32_plus(),
    {
        self.optional_magic == MAGIC_PE32_PLUS
    }

    /// Size in bytes of one thunk of this image.
    pub fn thunk_size(&self) -> (n: usize)
        ensures
            n == self.thunk_size_spec(),
    {
        thunk_len(self.pe32_plus())
    }
}

/// The offset of the PE signature, as the DOS header gives it.
pub open spec fn pe_offset(b: Seq<u8>) -> int {
    le_u32(b, PE_POINTER_OFFSET as int)
}

/// The size of the optional header, as the COFF header gives it.
pub open spec fn optional_size(b: Seq<u8>) -> int {
    le_u16(b, pe_offset(b) + 20)
}

/// Where in the optional header the import entry of the data directories
/// lies, for the given magic.
pub open spec fn import_entry_offset(magic: int) -> int {
    if magic == MAGIC_PE32_PLUS {
        IMPORT_ENTRY_PE32_PLUS as int
    } else {
        IMPORT_ENTRY_PE32 as int
    }
}

/// Whether the buffer starts with `MZ`.
pub open spec fn has_dos_magic(b: Seq<u8>) -> bool {
    b[0] == 0x4D && b[1] == 0x5A
}

/// Whether the four bytes at `off` are `PE\0\0`.
pub open spec fn has_pe_magic(b: Seq<u8>, off: int) -> bool {
    b[off] == 0x50 && b[off + 1] == 0x45 && b[off + 2] == 0 && b[off + 3] == 0
}

/// The magic of an optional header of `opt_size` bytes at `opt`: its first
/// two bytes, or zero when it is too short to hold them.
pub open spec fn optional_magic(b: Seq<u8>, opt: int, opt_size: int) -> int {
    if opt_size >= 2 {
        le_u16(b, opt)
    } else {
        0
    }
}

/// Whether an optional header of `opt_size` bytes with this magic holds the
/// import entry of its data directories.
pub open spec fn has_import_entry(magic: int, opt_size: int) -> bool {
    opt_size >= import_entry_offset(magic) + 8
}

/// What decoding the headers of `b` gives. The checks are made in this
/// order, and the first that fails decides the error:
/// the DOS header fits; it starts with `MZ`; the PE signature and COFF
/// header fit at the offset it names; the signature is `PE\0\0`; the
/// optional header fits in the buffer.
///
/// Nothing is read past the end of the optional header: one that ends
/// before its magic has magic zero, and one that ends before the import
/// entry of its data directories describes an image without imports, with
/// import RVA and size zero.
pub open spec fn parse_headers_spec(b: Seq<u8>) -> Result<ParsedHeaders, FormatError> {
    let pe = pe_offset(b);
    let opt = pe + COFF_END;
    let opt_size = optional_size(b);
    let magic = optional_magic(b, opt, opt_size);
    let entry = opt + import_entry_offset(magic);
    let with_imports = has_import_entry(magic, opt_size);
    if b.len() < DOS_HEADER_SIZE {
        Err(FormatError::TruncatedHeader)
    } else if !has_dos_magic(b) {
        Err(FormatError::BadDosMagic)
    } else if pe + COFF_END > b.len() {
        Err(FormatError::TruncatedHeader)
    } else if !has_pe_magic(b, pe) {
        Err(FormatError::BadPeMagic)
    } else if opt + opt_size > b.len() {
        Err(FormatError::TruncatedHeader)
    } else {
        Ok(
            ParsedHeaders {
                machine: le_u16(b, pe + 4) as u16,
                section_count: le_u16(b, pe + 6) as u16,
                optional_magic: magic as u16,
                optional_header_size: opt_size as u16,
                section_table_offset: (opt + opt_size) as u64,
                import_rva: if with_imports {
                    le_u32(b, entry) as u32
                } else {
                    0
                },
                import_size: if with_imports {
                    le_u32(b, entry + 4) as u32
                } else {
                    0
                },
            },
        )
    }
}

/// Validates and decodes the headers of a PE image.
///
/// Returns the decoded headers, or the error of the first check that
/// fails; nothing is returned for a buffer that fails a check.
pub fn parse_headers(bytes: &[u8]) -> (r: Result<ParsedHeaders, FormatError>)
    ensures
        r == parse_headers_spec(bytes@),
        r matches Ok(h) ==> h.section_table_offset <= bytes@.len(),
{
    let len: usize = bytes.len();
    if len < DOS_HEADER_SIZE {
        return Err(FormatError::TruncatedHeader);
    }
    if bytes[0] != 0x4D || bytes[1] != 0x5A {
        return Err(FormatError::BadDosMagic);
    }
    let pe32: u32 = match read_u32(bytes, PE_POINTER_OFFSET) {
        Some(v) => v,
        None => { return Err(FormatError::TruncatedHeader); },
    };
    let pe64: u64 = pe32 as u64;
    if pe64 + COFF_END > len as u64 {
        return Err(FormatError::TruncatedHeader);
    }
    let pe: usize = pe32 as usize;
    if bytes[pe] != 0x50 || bytes[pe + 1] != 0x45 || bytes[pe + 2] != 0 || bytes[pe + 3] != 0 {
        return Err(FormatError::BadPeMagic);
    }
    let machine: u16 = match read_u16(bytes, pe + 4) {
        Some(v) => v,
        None => { return Err(FormatError::TruncatedHeader); },
    };
    let section_count: u16 = match read_u16(bytes, pe + 6) {
        Some(v) => v,
        None => { return Err(FormatError::TruncatedHeader); },
    };
    let opt_size: u16 = match read_u16(bytes, pe + 20) {
        Some(v) => v,
        None => { return Err(FormatError::TruncatedHeader); },
    };
    let opt: usize = pe + 24;
    if opt as u64 + opt_size as u64 > len as u64 {
        return Err(FormatError::TruncatedHeader);
    }
    let magic: u16 = if opt_size >= 2 {
        match read_u16(bytes, opt) {
            Some(v) => v,
            None => { return Err(FormatError::TruncatedHeader); },
        }
    } else {
        0
    };
    let entry_offset: u64 = if magic == MAGIC_PE32_PLUS {
        IMPORT_ENTRY_PE32_PLUS
    } else {
        IMPORT_ENTRY_PE32
    };
    let mut import_rva: u32 = 0;
    let mut import_size: u32 = 0;
    if opt_size as u64 >= entry_offset + 8 {
        let entry: usize = opt + entry_offset as usize;
        import_rva = match read_u32(bytes, entry) {
            Some(v) => v,
            None => { return Err(FormatError::TruncatedHeader); },
        };
        import_size = match read_u32(bytes, entry + 4) {
            Some(v) => v,
            None => { return Err(FormatError::TruncatedHeader); },
        };
    }
    Ok(
        ParsedHeaders {
            machine,
            section_count,
            optional_magic: magic,
            optional_header_size: opt_size,
            section_table_offset: opt as u64 + opt_size as u64,
            import_rva,
            import_size,
        },
    )
}

} // verus!
