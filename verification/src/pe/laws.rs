//! What holds of every load, stated over the specification of the decoder.

use vstd::prelude::*;
use crate::bytes::le_u16;
use crate::pe::error::FormatError;
use crate::pe::headers::{has_dos_magic, parse_headers_spec, pe_offset, DOS_HEADER_SIZE};
use crate::pe::imports::{
    groups_wf, lemma_descriptors_wf, ordinal_flag, ordinal_label, symbol_spec, ImportView,
};
use crate::pe::loader::{outcome_view, parse_spec, ArtifactView, PeArtifact};
use crate::pe::rva::resolve_spec;
use crate::pe::sections::{section_at, sections_spec, SectionView, SECTION_RECORD_SIZE};

verus! {

/// An image that loads has exactly as many sections as its COFF header
/// counts, and the `i`-th of them is the one that the `i`-th record of the
/// section table describes.
pub proof fn lemma_sections_follow_table(b: Seq<u8>)
    requires
        parse_spec(b) is Ok,
    ensures
        parse_headers_spec(b) is Ok,
        parse_spec(b)->Ok_0.sections.len() == le_u16(b, pe_offset(b) + 6),
        forall|i: int|
            0 <= i < parse_spec(b)->Ok_0.sections.len() ==> #[trigger] parse_spec(
                b,
            )->Ok_0.sections[i] == section_at(
                b,
                parse_headers_spec(b)->Ok_0.section_table_offset + i * SECTION_RECORD_SIZE,
            ),
{
}

/// An image whose import directory has size zero imports nothing: it
/// loads whenever its headers and section table do, with no import group.
pub proof fn lemma_empty_directory_no_imports(b: Seq<u8>)
    requires
        parse_headers_spec(b) matches Ok(h) && h.import_size == 0,
    ensures
        parse_spec(b) is Ok <==> sections_spec(b, parse_headers_spec(b)->Ok_0) is Ok,
        parse_spec(b) matches Ok(a) ==> a.imports == Seq::<ImportView>::empty(),
{
}

/// A buffer shorter than a DOS header is a truncated header, whatever it
/// holds.
pub proof fn lemma_short_buffer_truncated(b: Seq<u8>)
    requires
        b.len() < DOS_HEADER_SIZE,
    ensures
        parse_spec(b) == Err::<ArtifactView, FormatError>(
            FormatError::TruncatedHeader,
        ),
{
}

/// A buffer that holds a DOS header and does not start with `MZ` has a bad
/// DOS magic, whatever follows.
pub proof fn lemma_wrong_start_bad_dos_magic(b: Seq<u8>)
    requires
        b.len() >= DOS_HEADER_SIZE,
        !has_dos_magic(b),
    ensures
        parse_spec(b) == Err::<ArtifactView, FormatError>(
            FormatError::BadDosMagic,
        ),
{
}

/// A thunk with the ordinal flag set stands for the label of its low 16
/// bits, whatever the buffer and the sections are: no address is resolved
/// for it.
pub proof fn lemma_ordinal_thunk_label(
    b: Seq<u8>,
    sections: Seq<SectionView>,
    pe32_plus: bool,
    value: int,
)
    requires
        value >= ordinal_flag(pe32_plus),
    ensures
        symbol_spec(b, sections, pe32_plus, value) == Ok::<Seq<char>, FormatError>(
            ordinal_label(value % 0x1_0000),
        ),
        value % 0x1_0000 == 5 ==> symbol_spec(b, sections, pe32_plus, value) == Ok::<
            Seq<char>,
            FormatError,
        >("Ordinal5"@),
{
    if value % 0x1_0000 == 5 {
        reveal_strlit("Ordinal");
        reveal_strlit("Ordinal5");
        assert(ordinal_label(5) =~= "Ordinal5"@);
    }
}

/// Loading is a function of the bytes: two loads of one buffer end alike,
/// with equal artifacts or with the same error.
pub proof fn lemma_load_deterministic(
    b: Seq<u8>,
    first: Result<PeArtifact, FormatError>,
    second: Result<PeArtifact, FormatError>,
)
    requires
        outcome_view(first) == parse_spec(b),
        outcome_view(second) == parse_spec(b),
    ensures
        outcome_view(first) == outcome_view(second),
        first is Ok <==> second is Ok,
        first matches Ok(x) ==> second matches Ok(y) && x@ == y@,
        first matches Err(e) ==> second == Err::<PeArtifact, FormatError>(e),
{
}

/// In every artifact that a load gives, each import group names a library
/// and no two groups name the same one.
pub proof fn lemma_groups_distinct(b: Seq<u8>)
    requires
        parse_spec(b) is Ok,
    ensures
        groups_wf(parse_spec(b)->Ok_0.imports),
{
    let h = parse_headers_spec(b)->Ok_0;
    let sections = sections_spec(b, h)->Ok_0;
    if h.import_size != 0 {
        let off = resolve_spec(h.import_rva as int, sections, b.len() as int)->Ok_0;
        lemma_descriptors_wf(b, sections, h.is_pe32_plus(), off, Seq::empty());
    }
}

} // verus!
