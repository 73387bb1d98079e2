//! The section table: a run of fixed-size records that follows the
//! optional header.

use vstd::prelude::*;
use vstd::utf8::{decode_utf8, valid_utf8};
use crate::bytes::{le_u32, read_u32};
use crate::pe::error::FormatError;
use crate::pe::headers::ParsedHeaders;
use crate::text::{decode_lossy, lossy_text};

verus! {

/// Size of one record of the section table.
pub const SECTION_RECORD_SIZE: usize = 40;

/// Size of the name field of a section record.
pub const SECTION_NAME_SIZE: usize = 8;

/// One entry of the section table.
#[derive(Debug, Clone, PartialEq, Eq)]
pub struct SectionInfo {
    /// The name, without its zero padding, decoded as best-effort text.
    pub name: String,
    /// Where the section starts in the address space of the image.
    pub virtual_address: u32,
    /// How many bytes the section spans in that address space.
    pub virtual_size: u32,
    /// File offset of the section's data.
    pub pointer_to_raw_data: u32,
    /// Size of the section's data in the file.
    pub size_of_raw_data: u32,
}

/// A section seen as plain values.
pub struct SectionView {
    pub name: Seq<char>,
    pub virtual_address: u32,
    pub virtual_size: u32,
    pub pointer_to_raw_data: u32,
    pub size_of_raw_data: u32,
}

impl View for SectionInfo {
    type V = SectionView;

    open spec fn view(&self) -> SectionView {
        SectionView {
            name: self.name@,
            virtual_address: self.virtual_address,
            virtual_size: self.virtual_size,
            pointer_to_raw_data: self.pointer_to_raw_data,
            size_of_raw_data: self.size_of_raw_data,
        }
    }
}

/// The views of a sequence of sections, in the same order.
pub open spec fn sections_view(s: Seq<SectionInfo>) -> Seq<SectionView> {
    Seq::new(s.len(), |i: int| s[i]@)
}

/// `raw` without its trailing zero bytes.
pub open spec fn trim_nuls(raw: Seq<u8>) -> Seq<u8>
    decreases raw.len(),
{
    if raw.len() > 0 && raw.last() == 0 {
        trim_nuls(raw.drop_last())
    } else {
        raw
    }
}

/// The section that the record at `off` describes.
pub open spec fn section_at(b: Seq<u8>, off: int) -> SectionView {
    SectionView {
        name: lossy_text(trim_nuls(b.subrange(off, off + SECTION_NAME_SIZE))),
        virtual_size: le_u32(b, off + 8) as u32,
        virtual_address: le_u32(b, off + 12) as u32,
        size_of_raw_data: le_u32(b, off + 16) as u32,
        pointer_to_raw_data: le_u32(b, off + 20) as u32,
    }
}

/// Where the section table of `h` ends.
pub open spec fn section_table_end(h: ParsedHeaders) -> int {
    h.section_table_offset + h.section_count * SECTION_RECORD_SIZE
}

/// What reading the section table gives: one section per record, in the
/// order of the table, or `TruncatedSectionTable` when the table does not
/// fit in the buffer.
pub open spec fn sections_spec(b: Seq<u8>, h: ParsedHeaders) -> Result<
    Seq<SectionView>,
    FormatError,
> {
    if section_table_end(h) > b.len() {
        Err(FormatError::TruncatedSectionTable)
    } else {
        Ok(
            Seq::new(
                h.section_count as nat,
                |i: int| section_at(b, h.section_table_offset + i * SECTION_RECORD_SIZE),
            ),
        )
    }
}

/// Finds the length of `raw` without its trailing zero bytes.
fn trimmed_len(raw: &[u8]) -> (n: usize)
    ensures
        n <= raw@.len(),
        trim_nuls(raw@) == raw@.subrange(0, n as int),
{
    let mut n: usize = raw.len();
    assert(raw@.subrange(0, n as int) =~= raw@);
    while n > 0 && raw[n - 1] == 0
        invariant
            n <= raw@.len(),
            trim_nuls(raw@) == trim_nuls(raw@.subrange(0, n as int)),
        decreases n,
    {
        assert(raw@.subrange(0, n as int).drop_last() =~= raw@.subrange(0, n - 1));
        n = n - 1;
    }
    n
}

/// Decodes the name field of a section record: the bytes without their
/// trailing zeros, as best-effort text. Bytes that are valid UTF-8 give
/// exactly the characters they encode.
pub fn section_name(raw: &[u8]) -> (name: String)
    ensures
        name@ == lossy_text(trim_nuls(raw@)),
        valid_utf8(trim_nuls(raw@)) ==> name@ == decode_utf8(trim_nuls(raw@)),
{
    let n: usize = trimmed_len(raw);
    decode_lossy(&raw[0..n])
}

/// Decodes the section record at `off`. The record must lie in the buffer.
fn read_section(bytes: &[u8], off: usize) -> (s: SectionInfo)
    requires
        off + SECTION_RECORD_SIZE <= bytes@.len(),
    ensures
        s@ == section_at(bytes@, off as int),
{
    let len: usize = bytes.len();
    assert(off + SECTION_RECORD_SIZE <= len);
    let name = section_name(&bytes[off..off + SECTION_NAME_SIZE]);
    let virtual_size: u32 = read_u32(bytes, off + 8).unwrap();
    let virtual_address: u32 = read_u32(bytes, off + 12).unwrap();
    let size_of_raw_data: u32 = read_u32(bytes, off + 16).unwrap();
    let pointer_to_raw_data: u32 = read_u32(bytes, off + 20).unwrap();
    SectionInfo { name, virtual_address, virtual_size, pointer_to_raw_data, size_of_raw_data }
}

/// Reads the section table that `headers` locates.
///
/// On success the result holds `headers.section_count` sections, the `i`-th
/// decoded from the `i`-th record of the table: nothing is sorted, merged
/// or left out. The table is checked against the buffer before any record
/// is read.
pub fn read_sections(bytes: &[u8], headers: &ParsedHeaders) -> (r: Result<
    Vec<SectionInfo>,
    FormatError,
>)
    ensures
        match r {
            Ok(v) => sections_spec(bytes@, *headers) == Ok::<Seq<SectionView>, FormatError>(
                sections_view(v@),
            ),
            Err(e) => sections_spec(bytes@, *headers) == Err::<Seq<SectionView>, FormatError>(e),
        },
{
    let len: usize = bytes.len();
    let count: usize = headers.section_count as usize;
    let table_size: u64 = headers.section_count as u64 * SECTION_RECORD_SIZE as u64;
    if headers.section_table_offset > len as u64 || table_size > len as u64
        - headers.section_table_offset {
        return Err(FormatError::TruncatedSectionTable);
    }
    let start: usize = headers.section_table_offset as usize;
    let mut out: Vec<SectionInfo> = Vec::new();
    let mut i: usize = 0;
    while i < count
        invariant
            i <= count,
            count == headers.section_count,
            start == headers.section_table_offset,
            start + count * SECTION_RECORD_SIZE <= len == bytes@.len(),
            out@.len() == i,
            forall|k: int|
                0 <= k < i ==> (#[trigger] out@[k])@ == section_at(
                    bytes@,
                    start + k * SECTION_RECORD_SIZE,
                ),
        decreases count - i,
    {
        let s = read_section(bytes, start + i * SECTION_RECORD_SIZE);
        out.push(s);
        i = i + 1;
    }
    assert(sections_view(out@) =~= sections_spec(bytes@, *headers)->Ok_0);
    Ok(out)
}

} // verus!
