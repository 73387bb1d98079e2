//! The import table: descriptors, thunk arrays and the grouped symbol
//! lists they give.

use vstd::prelude::*;
use vstd::string::*;
use vstd::utf8::{decode_utf8, valid_utf8};
use crate::bytes::{all_zero, find_nul, in_bounds, is_zero_block, le_u32, le_u64, nul_run, read_u32, read_u64};
use crate::pe::error::FormatError;
use crate::pe::headers::{thunk_len, thunk_width, ParsedHeaders};
use crate::pe::rva::{resolve, resolve_spec};
use crate::pe::sections::{sections_view, SectionInfo, SectionView};
use crate::text::{decimal_digits, decode_lossy, lossy_text, push_decimal};

verus! {

/// Size of one import descriptor.
pub const DESCRIPTOR_SIZE: usize = 20;

/// Size of the hint that precedes an imported name.
pub const HINT_SIZE: usize = 2;

/// The symbols that an image imports from one library.
#[derive(Debug, Clone, PartialEq, Eq)]
pub struct ImportInfo {
    /// The library's name as the image spells it; case is kept.
    pub dll: String,
    /// The imported names, or ordinal labels, in the order of the thunks.
    pub symbols: Vec<String>,
}

/// An import group seen as plain values.
pub struct ImportView {
    pub dll: Seq<char>,
    pub symbols: Seq<Seq<char>>,
}

/// The texts of a sequence of strings, in the same order.
pub open spec fn names_view(s: Seq<String>) -> Seq<Seq<char>> {
    Seq::new(s.len(), |i: int| s[i]@)
}

impl View for ImportInfo {
    type V = ImportView;

    open spec fn view(&self) -> ImportView {
        ImportView { dll: self.dll@, symbols: names_view(self.symbols@) }
    }
}

/// The views of a sequence of import groups, in the same order.
pub open spec fn imports_view(s: Seq<ImportInfo>) -> Seq<ImportView> {
    Seq::new(s.len(), |i: int| s[i]@)
}

/// What holds of every list of groups that a walk gives: no group has an
/// empty library name, and no two groups have the same one.
pub open spec fn groups_wf(groups: Seq<ImportView>) -> bool {
    &&& forall|i: int| 0 <= i < groups.len() ==> (#[trigger] groups[i]).dll.len() > 0
    &&& forall|i: int, j: int|
        0 <= i < j < groups.len() ==> (#[trigger] groups[i]).dll != (#[trigger] groups[j]).dll
}

// ---------------------------------------------------------------------
// Grouping
// ---------------------------------------------------------------------

/// The index of the first group at or after `from` whose library is `dll`.
pub open spec fn group_index_from(groups: Seq<ImportView>, dll: Seq<char>, from: int) -> Option<int>
    decreases groups.len() - from,
{
    if from < 0 || from >= groups.len() {
        None
    } else if groups[from].dll == dll {
        Some(from)
    } else {
        group_index_from(groups, dll, from + 1)
    }
}

/// The index of the first group whose library is `dll`.
pub open spec fn group_index(groups: Seq<ImportView>, dll: Seq<char>) -> Option<int> {
    group_index_from(groups, dll, 0)
}

/// `groups` with a group for `dll`: unchanged when there is one, else with
/// a new, empty group at the end.
pub open spec fn with_group(groups: Seq<ImportView>, dll: Seq<char>) -> Seq<ImportView> {
    match group_index(groups, dll) {
        Some(_) => groups,
        None => groups.push(ImportView { dll, symbols: Seq::empty() }),
    }
}

/// Where the group for `dll` stands in `with_group(groups, dll)`.
pub open spec fn group_position(groups: Seq<ImportView>, dll: Seq<char>) -> int {
    match group_index(groups, dll) {
        Some(i) => i,
        None => groups.len() as int,
    }
}

/// `groups` with `symbols` appended to the group at `i`; unchanged when
/// there is no such group.
pub open spec fn with_symbols(groups: Seq<ImportView>, i: int, symbols: Seq<Seq<char>>) -> Seq<
    ImportView,
> {
    if 0 <= i < groups.len() {
        groups.update(i, ImportView { dll: groups[i].dll, symbols: groups[i].symbols + symbols })
    } else {
        groups
    }
}

/// `groups` with `symbol` appended to the group at `i`; unchanged when
/// there is no such group.
pub open spec fn with_symbol(groups: Seq<ImportView>, i: int, symbol: Seq<char>) -> Seq<
    ImportView,
> {
    with_symbols(groups, i, seq![symbol])
}

/// `group_index_from` answers with the least index from `from` on whose
/// group is named `dll`, and with `None` only when there is none.
pub proof fn lemma_group_index_from(groups: Seq<ImportView>, dll: Seq<char>, from: int)
    requires
        0 <= from <= groups.len(),
    ensures
        match group_index_from(groups, dll, from) {
            Some(i) => from <= i < groups.len() && groups[i].dll == dll && forall|j: int|
                from <= j < i ==> (#[trigger] groups[j]).dll != dll,
            None => forall|j: int| from <= j < groups.len() ==> (#[trigger] groups[j]).dll != dll,
        },
    decreases groups.len() - from,
{
    if from < groups.len() && groups[from].dll != dll {
        lemma_group_index_from(groups, dll, from + 1);
    }
}

/// Finds the group for `dll`, creating it at the end on first occurrence,
/// and returns its index. Names are compared character by character: two
/// spellings that differ in case are two libraries.
pub fn open_group(groups: &mut Vec<ImportInfo>, dll: String) -> (i: usize)
    ensures
        imports_view(final(groups)@) == with_group(imports_view(old(groups)@), dll@),
        i as int == group_position(imports_view(old(groups)@), dll@),
        i < final(groups)@.len(),
{
    let ghost views = imports_view(groups@);
    let mut i: usize = 0;
    while i < groups.len()
        invariant
            i <= groups@.len(),
            *groups == *old(groups),
            views == imports_view(groups@),
            group_index(views, dll@) == group_index_from(views, dll@, i as int),
        decreases groups@.len() - i,
    {
        assert(views[i as int] == groups@[i as int]@);
        if groups[i].dll == dll {
            return i;
        }
        i = i + 1;
    }
    groups.push(ImportInfo { dll, symbols: Vec::new() });
    assert(names_view(Seq::<String>::empty()) =~= Seq::<Seq<char>>::empty());
    assert(imports_view(groups@) =~= views.push(
        ImportView { dll: dll@, symbols: Seq::empty() },
    ));
    i
}

/// Appends `symbol` to the group at index `i`. Without such a group
/// nothing changes.
pub fn add_symbol(groups: &mut Vec<ImportInfo>, i: usize, symbol: String)
    ensures
        imports_view(final(groups)@) == with_symbol(imports_view(old(groups)@), i as int, symbol@),
{
    if i < groups.len() {
        groups[i].symbols.push(symbol);
        assert(groups@[i as int].symbols@ == old(groups)@[i as int].symbols@.push(symbol));
        assert(forall|j: int| 0 <= j < groups@.len() && j != i ==> groups@[j] == old(groups)@[j]);
        assert(names_view(groups@[i as int].symbols@) =~= names_view(
            old(groups)@[i as int].symbols@,
        ) + seq![symbol@]);
        assert(imports_view(groups@) =~= with_symbol(imports_view(old(groups)@), i as int, symbol@));
    }
}

// ---------------------------------------------------------------------
// Names and thunks
// ---------------------------------------------------------------------

/// The label of an import by ordinal: `Ordinal` and the number in decimal.
pub open spec fn ordinal_label(n: int) -> Seq<char> {
    "Ordinal"@ + decimal_digits(n as nat)
}

/// The value of the thunk at `off`.
pub open spec fn thunk_value(b: Seq<u8>, off: int, pe32_plus: bool) -> int {
    if pe32_plus {
        le_u64(b, off)
    } else {
        le_u32(b, off)
    }
}

/// The least thunk value with the ordinal flag, the top bit, set.
pub open spec fn ordinal_flag(pe32_plus: bool) -> int {
    if pe32_plus {
        0x8000_0000_0000_0000
    } else {
        0x8000_0000
    }
}

/// The symbol that a non-zero thunk value stands for. With the ordinal
/// flag set it is the label of the low 16 bits. Otherwise the value is the
/// RVA of a hint and a name: the symbol is the zero-terminated run after
/// the two-byte hint, decoded as best-effort text.
pub open spec fn symbol_spec(
    b: Seq<u8>,
    sections: Seq<SectionView>,
    pe32_plus: bool,
    value: int,
) -> Result<Seq<char>, FormatError> {
    if value >= ordinal_flag(pe32_plus) {
        Ok(ordinal_label(value % 0x1_0000))
    } else {
        match resolve_spec(value, sections, b.len() as int) {
            Err(e) => Err(e),
            Ok(off) => if off + HINT_SIZE > b.len() {
                Err(FormatError::TruncatedImportDirectory)
            } else {
                Ok(lossy_text(nul_run(b, off + HINT_SIZE)))
            },
        }
    }
}

/// The symbols of the thunk array at `off`, up to its zero entry. An array
/// that reaches the end of the buffer before a zero entry is truncated; the
/// first symbol that cannot be resolved fails the array.
pub open spec fn thunks_spec(
    b: Seq<u8>,
    sections: Seq<SectionView>,
    pe32_plus: bool,
    off: int,
) -> Result<Seq<Seq<char>>, FormatError>
    decreases b.len() - off,
{
    if !in_bounds(b, off, thunk_width(pe32_plus)) {
        Err(FormatError::TruncatedImportDirectory)
    } else if thunk_value(b, off, pe32_plus) == 0 {
        Ok(Seq::empty())
    } else {
        match symbol_spec(b, sections, pe32_plus, thunk_value(b, off, pe32_plus)) {
            Err(e) => Err(e),
            Ok(s) => prepend_symbols(
                seq![s],
                thunks_spec(b, sections, pe32_plus, off + thunk_width(pe32_plus)),
            ),
        }
    }
}

/// `rest` with `head` before its symbols; an error stays as it is.
pub open spec fn prepend_symbols(
    head: Seq<Seq<char>>,
    rest: Result<Seq<Seq<char>>, FormatError>,
) -> Result<Seq<Seq<char>>, FormatError> {
    match rest {
        Ok(symbols) => Ok(head + symbols),
        Err(e) => Err(e),
    }
}

/// Builds the label of an import by ordinal.
pub fn ordinal_name(n: u16) -> (s: String)
    ensures
        s@ == ordinal_label(n as int),
{
    let mut s = String::from_str("Ordinal");
    push_decimal(&mut s, n as u64);
    s
}

/// Reads the zero-terminated run at `off` as best-effort text. The run
/// ends at the end of the buffer when no zero byte follows. A run that is
/// valid UTF-8 gives exactly the characters it encodes.
pub fn read_name(bytes: &[u8], off: usize) -> (s: String)
    ensures
        s@ == lossy_text(nul_run(bytes@, off as int)),
        valid_utf8(nul_run(bytes@, off as int)) ==> s@ == decode_utf8(nul_run(bytes@, off as int)),
{
    if off > bytes.len() {
        let nothing = &bytes[0..0];
        assert(nothing@ =~= Seq::<u8>::empty());
        return decode_lossy(nothing);
    }
    let end: usize = find_nul(bytes, off);
    decode_lossy(&bytes[off..end])
}

/// Resolves a non-zero thunk value to the symbol it stands for.
pub fn thunk_symbol(bytes: &[u8], sections: &[SectionInfo], pe32_plus: bool, value: u64) -> (r:
    Result<String, FormatError>)
    ensures
        match r {
            Ok(s) => symbol_spec(bytes@, sections_view(sections@), pe32_plus, value as int) == Ok::<
                Seq<char>,
                FormatError,
            >(s@),
            Err(e) => symbol_spec(bytes@, sections_view(sections@), pe32_plus, value as int)
                == Err::<Seq<char>, FormatError>(e),
        },
{
    let flag: u64 = if pe32_plus {
        0x8000_0000_0000_0000
    } else {
        0x8000_0000
    };
    if value >= flag {
        return Ok(ordinal_name((value % 0x1_0000) as u16));
    }
    let len: usize = bytes.len();
    match resolve(value, sections, len) {
        Err(e) => Err(e),
        Ok(off) => {
            if len - off < HINT_SIZE {
                Err(FormatError::TruncatedImportDirectory)
            } else {
                Ok(read_name(bytes, off + HINT_SIZE))
            }
        },
    }
}

/// Reads the thunk at `off`, or `None` when it does not fit in the buffer.
fn read_thunk(bytes: &[u8], off: usize, pe32_plus: bool) -> (r: Option<u64>)
    ensures
        r is Some <==> in_bounds(bytes@, off as int, thunk_width(pe32_plus)),
        r matches Some(v) ==> v as int == thunk_value(bytes@, off as int, pe32_plus),
{
    if pe32_plus {
        read_u64(bytes, off)
    } else {
        match read_u32(bytes, off) {
            Some(v) => Some(v as u64),
            None => None,
        }
    }
}

/// Walks the thunk array at `start` and appends its symbols to the group
/// at `gi`, one by one, in the order of the thunks.
fn collect_symbols(
    bytes: &[u8],
    sections: &[SectionInfo],
    pe32_plus: bool,
    start: usize,
    groups: &mut Vec<ImportInfo>,
    gi: usize,
) -> (r: Result<(), FormatError>)
    requires
        gi < old(groups)@.len(),
        start <= bytes@.len(),
    ensures
        match r {
            Ok(_) => thunks_spec(bytes@, sections_view(sections@), pe32_plus, start as int)
                matches Ok(symbols) && imports_view(final(groups)@) == with_symbols(
                imports_view(old(groups)@),
                gi as int,
                symbols,
            ),
            Err(e) => thunks_spec(bytes@, sections_view(sections@), pe32_plus, start as int)
                == Err::<Seq<Seq<char>>, FormatError>(e),
        },
{
    let ghost views = sections_view(sections@);
    let ghost before = imports_view(groups@);
    let ghost target = thunks_spec(bytes@, views, pe32_plus, start as int);
    let ghost mut seen: Seq<Seq<char>> = Seq::empty();
    let len: usize = bytes.len();
    let width: usize = thunk_len(pe32_plus);
    let mut off: usize = start;
    proof {
        assert(before =~= with_symbols(before, gi as int, seen));
        assert(target == prepend_symbols(seen, target)) by {
            if target is Ok {
                assert(seen + target->Ok_0 =~= target->Ok_0);
            }
        }
    }
    loop
        invariant
            off <= len == bytes@.len(),
            width == thunk_width(pe32_plus),
            views == sections_view(sections@),
            before == imports_view(old(groups)@),
            gi < before.len(),
            imports_view(groups@) == with_symbols(before, gi as int, seen),
            target == prepend_symbols(seen, thunks_spec(bytes@, views, pe32_plus, off as int)),
            target == thunks_spec(bytes@, views, pe32_plus, start as int),
        decreases len - off,
    {
        let value: u64 = match read_thunk(bytes, off, pe32_plus) {
            Some(v) => v,
            None => {
                return Err(FormatError::TruncatedImportDirectory);
            },
        };
        if value == 0 {
            assert(seen + Seq::<Seq<char>>::empty() =~= seen);
            return Ok(());
        }
        let symbol = match thunk_symbol(bytes, sections, pe32_plus, value) {
            Ok(s) => s,
            Err(e) => {
                return Err(e);
            },
        };
        proof {
            let rest = thunks_spec(bytes@, views, pe32_plus, off + width);
            if rest is Ok {
                assert(seen + (seq![symbol@] + rest->Ok_0) =~= seen.push(symbol@) + rest->Ok_0);
            }
            assert(with_symbol(with_symbols(before, gi as int, seen), gi as int, symbol@)
                =~= with_symbols(before, gi as int, seen.push(symbol@))) by {
                assert(before[gi as int].symbols + seen + seq![symbol@] =~= before[gi as int].symbols
                    + seen.push(symbol@));
            }
            seen = seen.push(symbol@);
        }
        add_symbol(groups, gi, symbol);
        off = off + width;
    }
}

// ---------------------------------------------------------------------
// Descriptors
// ---------------------------------------------------------------------

/// The RVA of the thunk array of the descriptor at `off`: its original
/// first thunk when that is not zero, else its first thunk.
pub open spec fn thunk_source(b: Seq<u8>, off: int) -> int {
    if le_u32(b, off) != 0 {
        le_u32(b, off)
    } else {
        le_u32(b, off + 16)
    }
}

/// `groups` after the imports of one library: the group of `dll`, created
/// at the end if it is new, has the symbols of the thunk array at
/// `thunk_rva` appended. An empty `dll` makes the address that led to it,
/// `name_rva`, dangle.
pub open spec fn library_spec(
    b: Seq<u8>,
    sections: Seq<SectionView>,
    pe32_plus: bool,
    dll: Seq<char>,
    name_rva: int,
    thunk_rva: int,
    groups: Seq<ImportView>,
) -> Result<Seq<ImportView>, FormatError> {
    if dll.len() == 0 {
        Err(FormatError::DanglingRva { rva: name_rva as u64 })
    } else {
        match resolve_spec(thunk_rva, sections, b.len() as int) {
            Err(e) => Err(e),
            Ok(thunks_off) => match thunks_spec(b, sections, pe32_plus, thunks_off) {
                Err(e) => Err(e),
                Ok(symbols) => Ok(
                    with_symbols(with_group(groups, dll), group_position(groups, dll), symbols),
                ),
            },
        }
    }
}

/// `groups` after the descriptor at `off`: its name RVA is resolved, the
/// zero-terminated run there is decoded as the library's name, and the
/// imports of that library are added.
pub open spec fn descriptor_spec(
    b: Seq<u8>,
    sections: Seq<SectionView>,
    pe32_plus: bool,
    off: int,
    groups: Seq<ImportView>,
) -> Result<Seq<ImportView>, FormatError> {
    let name_rva = le_u32(b, off + 12);
    match resolve_spec(name_rva, sections, b.len() as int) {
        Err(e) => Err(e),
        Ok(name_off) => library_spec(
            b,
            sections,
            pe32_plus,
            lossy_text(nul_run(b, name_off)),
            name_rva,
            thunk_source(b, off),
            groups,
        ),
    }
}

/// `groups` after the descriptors from `off` up to the first record of
/// twenty zero bytes. A record that does not fit in the buffer truncates
/// the directory; the first descriptor that fails fails the walk.
pub open spec fn descriptors_spec(
    b: Seq<u8>,
    sections: Seq<SectionView>,
    pe32_plus: bool,
    off: int,
    groups: Seq<ImportView>,
) -> Result<Seq<ImportView>, FormatError>
    decreases b.len() - off,
{
    if !in_bounds(b, off, DESCRIPTOR_SIZE as int) {
        Err(FormatError::TruncatedImportDirectory)
    } else if all_zero(b, off, DESCRIPTOR_SIZE as int) {
        Ok(groups)
    } else {
        match descriptor_spec(b, sections, pe32_plus, off, groups) {
            Err(e) => Err(e),
            Ok(next) => descriptors_spec(b, sections, pe32_plus, off + DESCRIPTOR_SIZE, next),
        }
    }
}

/// The import groups of an image: none when the import directory has size
/// zero, else what the descriptors at the directory's address give,
/// starting from no group.
pub open spec fn imports_spec(b: Seq<u8>, h: ParsedHeaders, sections: Seq<SectionView>) -> Result<
    Seq<ImportView>,
    FormatError,
> {
    if h.import_size == 0 {
        Ok(Seq::empty())
    } else {
        match resolve_spec(h.import_rva as int, sections, b.len() as int) {
            Err(e) => Err(e),
            Ok(off) => descriptors_spec(b, sections, h.is_pe32_plus(), off, Seq::empty()),
        }
    }
}

/// The imports of one library keep a well-formed list of groups
/// well-formed.
pub proof fn lemma_library_wf(
    b: Seq<u8>,
    sections: Seq<SectionView>,
    pe32_plus: bool,
    dll: Seq<char>,
    name_rva: int,
    thunk_rva: int,
    groups: Seq<ImportView>,
)
    requires
        groups_wf(groups),
    ensures
        library_spec(b, sections, pe32_plus, dll, name_rva, thunk_rva, groups) matches Ok(next)
            ==> groups_wf(next),
{
    if let Ok(next) = library_spec(b, sections, pe32_plus, dll, name_rva, thunk_rva, groups) {
        lemma_group_index_from(groups, dll, 0);
        let opened = with_group(groups, dll);
        assert(groups_wf(opened));
        assert(forall|i: int| 0 <= i < next.len() ==> (#[trigger] next[i]).dll == opened[i].dll);
    }
}

/// A descriptor keeps a well-formed list of groups well-formed.
pub proof fn lemma_descriptor_wf(
    b: Seq<u8>,
    sections: Seq<SectionView>,
    pe32_plus: bool,
    off: int,
    groups: Seq<ImportView>,
)
    requires
        groups_wf(groups),
    ensures
        descriptor_spec(b, sections, pe32_plus, off, groups) matches Ok(next) ==> groups_wf(next),
{
    let name_rva = le_u32(b, off + 12);
    if let Ok(name_off) = resolve_spec(name_rva, sections, b.len() as int) {
        lemma_library_wf(
            b,
            sections,
            pe32_plus,
            lossy_text(nul_run(b, name_off)),
            name_rva,
            thunk_source(b, off),
            groups,
        );
    }
}

/// A walk from a well-formed list of groups ends in a well-formed list.
pub proof fn lemma_descriptors_wf(
    b: Seq<u8>,
    sections: Seq<SectionView>,
    pe32_plus: bool,
    off: int,
    groups: Seq<ImportView>,
)
    requires
        groups_wf(groups),
    ensures
        descriptors_spec(b, sections, pe32_plus, off, groups) matches Ok(last) ==> groups_wf(last),
    decreases b.len() - off,
{
    if in_bounds(b, off, DESCRIPTOR_SIZE as int) && !all_zero(b, off, DESCRIPTOR_SIZE as int) {
        lemma_descriptor_wf(b, sections, pe32_plus, off, groups);
        if let Ok(next) = descriptor_spec(b, sections, pe32_plus, off, groups) {
            lemma_descriptors_wf(b, sections, pe32_plus, off + DESCRIPTOR_SIZE, next);
        }
    }
}

/// Adds the imports of the library `dll` to `groups`: finds or creates its
/// group and appends the symbols of the thunk array at `thunk_rva`, in the
/// order of the thunks. `name_rva` is the address that `dll` was read
/// from; it is reported when `dll` is empty. On failure `groups` holds
/// nothing that a caller may use.
pub fn import_library(
    bytes: &[u8],
    sections: &[SectionInfo],
    pe32_plus: bool,
    dll: String,
    name_rva: u32,
    thunk_rva: u32,
    groups: &mut Vec<ImportInfo>,
) -> (r: Result<(), FormatError>)
    ensures
        match r {
            Ok(_) => library_spec(
                bytes@,
                sections_view(sections@),
                pe32_plus,
                dll@,
                name_rva as int,
                thunk_rva as int,
                imports_view(old(groups)@),
            ) == Ok::<Seq<ImportView>, FormatError>(imports_view(final(groups)@)),
            Err(e) => library_spec(
                bytes@,
                sections_view(sections@),
                pe32_plus,
                dll@,
                name_rva as int,
                thunk_rva as int,
                imports_view(old(groups)@),
            ) == Err::<Seq<ImportView>, FormatError>(e),
        },
{
    if dll.as_str().is_empty() {
        return Err(FormatError::DanglingRva { rva: name_rva as u64 });
    }
    let thunks_off: usize = match resolve(thunk_rva as u64, sections, bytes.len()) {
        Ok(o) => o,
        Err(e) => {
            return Err(e);
        },
    };
    let gi: usize = open_group(groups, dll);
    collect_symbols(bytes, sections, pe32_plus, thunks_off, groups, gi)
}

/// Applies the descriptor at `off` to `groups`.
fn read_descriptor(
    bytes: &[u8],
    sections: &[SectionInfo],
    pe32_plus: bool,
    off: usize,
    groups: &mut Vec<ImportInfo>,
) -> (r: Result<(), FormatError>)
    requires
        off + DESCRIPTOR_SIZE <= bytes@.len(),
    ensures
        match r {
            Ok(_) => descriptor_spec(
                bytes@,
                sections_view(sections@),
                pe32_plus,
                off as int,
                imports_view(old(groups)@),
            ) == Ok::<Seq<ImportView>, FormatError>(imports_view(final(groups)@)),
            Err(e) => descriptor_spec(
                bytes@,
                sections_view(sections@),
                pe32_plus,
                off as int,
                imports_view(old(groups)@),
            ) == Err::<Seq<ImportView>, FormatError>(e),
        },
{
    let len: usize = bytes.len();
    let original_first_thunk: u32 = read_u32(bytes, off).unwrap();
    let name_rva: u32 = read_u32(bytes, off + 12).unwrap();
    let first_thunk: u32 = read_u32(bytes, off + 16).unwrap();
    let name_off: usize = match resolve(name_rva as u64, sections, len) {
        Ok(o) => o,
        Err(e) => {
            return Err(e);
        },
    };
    let dll = read_name(bytes, name_off);
    let thunk_rva: u32 = if original_first_thunk != 0 {
        original_first_thunk
    } else {
        first_thunk
    };
    import_library(bytes, sections, pe32_plus, dll, name_rva, thunk_rva, groups)
}

/// Walks the import table of an image.
///
/// With an import directory of size zero the result is empty. Otherwise
/// the directory's RVA is resolved and the descriptors there are applied
/// in turn until the record of zeros. Groups stand in the order in which
/// their libraries first occur, symbols in the order of their thunks. Any
/// failure fails the whole walk: no part of the table is returned.
pub fn walk_imports(bytes: &[u8], headers: &ParsedHeaders, sections: &[SectionInfo]) -> (r: Result<
    Vec<ImportInfo>,
    FormatError,
>)
    ensures
        match r {
            Ok(v) => imports_spec(bytes@, *headers, sections_view(sections@)) == Ok::<
                Seq<ImportView>,
                FormatError,
            >(imports_view(v@)) && groups_wf(imports_view(v@)),
            Err(e) => imports_spec(bytes@, *headers, sections_view(sections@)) == Err::<
                Seq<ImportView>,
                FormatError,
            >(e),
        },
{
    let ghost views = sections_view(sections@);
    let mut groups: Vec<ImportInfo> = Vec::new();
    assert(imports_view(groups@) =~= Seq::<ImportView>::empty());
    if headers.import_size == 0 {
        return Ok(groups);
    }
    let len: usize = bytes.len();
    let pe32_plus: bool = headers.pe32_plus();
    let start: usize = match resolve(headers.import_rva as u64, sections, len) {
        Ok(o) => o,
        Err(e) => {
            return Err(e);
        },
    };
    let ghost target = descriptors_spec(bytes@, views, pe32_plus, start as int, Seq::empty());
    proof {
        lemma_descriptors_wf(bytes@, views, pe32_plus, start as int, Seq::empty());
    }
    let mut off: usize = start;
    loop
        invariant
            off <= len == bytes@.len(),
            views == sections_view(sections@),
            target == descriptors_spec(bytes@, views, pe32_plus, off as int, imports_view(groups@)),
            target matches Ok(last) ==> groups_wf(last),
            imports_spec(bytes@, *headers, views) == target,
        decreases len - off,
    {
        if len - off < DESCRIPTOR_SIZE {
            return Err(FormatError::TruncatedImportDirectory);
        }
        if is_zero_block(bytes, off, DESCRIPTOR_SIZE) {
            return Ok(groups);
        }
        match read_descriptor(bytes, sections, pe32_plus, off, &mut groups) {
            Ok(_) => {},
            Err(e) => {
                return Err(e);
            },
        }
        off = off + DESCRIPTOR_SIZE;
    }
}

} // verus!
