//! Mapping a relative virtual address to a file offset through the section
//! table.

use vstd::prelude::*;
use crate::pe::error::FormatError;
use crate::pe::sections::{sections_view, SectionInfo, SectionView};

verus! {

/// Whether `rva` lies in the address range `[virtual_address,
/// virtual_address + virtual_size)` of the section. The range is taken in
/// unbounded integers: it does not wrap.
pub open spec fn contains_rva(s: SectionView, rva: int) -> bool {
    s.virtual_address <= rva < s.virtual_address + s.virtual_size
}

/// The index of the first section at or after `from` that contains `rva`.
pub open spec fn first_section_from(sections: Seq<SectionView>, rva: int, from: int) -> Option<int>
    decreases sections.len() - from,
{
    if from < 0 || from >= sections.len() {
        None
    } else if contains_rva(sections[from], rva) {
        Some(from)
    } else {
        first_section_from(sections, rva, from + 1)
    }
}

/// The index of the first section, in table order, that contains `rva`.
pub open spec fn first_section(sections: Seq<SectionView>, rva: int) -> Option<int> {
    first_section_from(sections, rva, 0)
}

/// The file offset that `rva` maps to: the raw-data pointer of the first
/// section that contains it plus the distance of `rva` from the start of
/// that section, provided that this offset addresses a byte of the file.
/// Otherwise the address dangles.
pub open spec fn resolve_spec(rva: int, sections: Seq<SectionView>, file_len: int) -> Result<
    int,
    FormatError,
> {
    match first_section(sections, rva) {
        Some(i) => {
            let off = sections[i].pointer_to_raw_data + (rva - sections[i].virtual_address);
            if off < file_len {
                Ok(off)
            } else {
                Err(FormatError::DanglingRva { rva: rva as u64 })
            }
        },
        None => Err(FormatError::DanglingRva { rva: rva as u64 }),
    }
}

/// `first_section_from` answers with the least index from `from` on whose
/// section contains `rva`, and with `None` only when there is none.
pub proof fn lemma_first_section_from(sections: Seq<SectionView>, rva: int, from: int)
    requires
        0 <= from <= sections.len(),
    ensures
        match first_section_from(sections, rva, from) {
            Some(i) => from <= i < sections.len() && contains_rva(sections[i], rva) && forall|
                j: int,
            | from <= j < i ==> !contains_rva(#[trigger] sections[j], rva),
            None => forall|j: int|
                from <= j < sections.len() ==> !contains_rva(#[trigger] sections[j], rva),
        },
    decreases sections.len() - from,
{
    if from < sections.len() && !contains_rva(sections[from], rva) {
        lemma_first_section_from(sections, rva, from + 1);
    }
}

/// Maps `rva` to a file offset.
///
/// The first section in table order whose address range contains `rva`
/// decides; later sections that contain it too are not consulted. The
/// result is an offset below `file_len`, or `DanglingRva` when no section
/// contains `rva` or the offset falls outside the file.
pub fn resolve(rva: u64, sections: &[SectionInfo], file_len: usize) -> (r: Result<
    usize,
    FormatError,
>)
    ensures
        match r {
            Ok(off) => resolve_spec(rva as int, sections_view(sections@), file_len as int) == Ok::<
                int,
                FormatError,
            >(off as int) && off < file_len,
            Err(e) => resolve_spec(rva as int, sections_view(sections@), file_len as int) == Err::<
                int,
                FormatError,
            >(e),
        },
{
    let ghost views = sections_view(sections@);
    let mut i: usize = 0;
    while i < sections.len()
        invariant
            i <= sections@.len(),
            views == sections_view(sections@),
            first_section(views, rva as int) == first_section_from(views, rva as int, i as int),
        decreases sections@.len() - i,
    {
        let s = &sections[i];
        assert(views[i as int] == s@);
        let start: u64 = s.virtual_address as u64;
        let end: u64 = start + s.virtual_size as u64;
        if start <= rva && rva < end {
            let off: u64 = s.pointer_to_raw_data as u64 + (rva - start);
            if off < file_len as u64 {
                return Ok(off as usize);
            } else {
                return Err(FormatError::DanglingRva { rva });
            }
        }
        i = i + 1;
    }
    Err(FormatError::DanglingRva { rva })
}

} // verus!
