//! The artifact of a load: the sections and the import groups of one
//! image, decoded together or not at all.

use vstd::prelude::*;
use crate::pe::error::FormatError;
use crate::pe::headers::{parse_headers, parse_headers_spec};
use crate::pe::imports::{groups_wf, imports_spec, imports_view, walk_imports, ImportInfo, ImportView};
use crate::pe::sections::{read_sections, sections_spec, sections_view, SectionInfo, SectionView};

verus! {

/// What a PE image declares: its sections in table order and its imports
/// grouped by library.
#[derive(Debug, Clone, PartialEq, Eq)]
pub struct PeArtifact {
    pub sections: Vec<SectionInfo>,
    pub imports: Vec<ImportInfo>,
}

/// An artifact seen as plain values.
pub struct ArtifactView {
    pub sections: Seq<SectionView>,
    pub imports: Seq<ImportView>,
}

impl View for PeArtifact {
    type V = ArtifactView;

    open spec fn view(&self) -> ArtifactView {
        ArtifactView {
            sections: sections_view(self.sections@),
            imports: imports_view(self.imports@),
        }
    }
}

impl PeArtifact {
    /// Every import group names a library, and no library has two groups.
    pub open spec fn wf(&self) -> bool {
        groups_wf(self@.imports)
    }
}

/// What loading `b` gives: the headers are decoded, then the section
/// table, then the import table; the first stage that fails decides the
/// error, and only when all three succeed is there an artifact.
pub open spec fn parse_spec(b: Seq<u8>) -> Result<ArtifactView, FormatError> {
    match parse_headers_spec(b) {
        Err(e) => Err(e),
        Ok(h) => match sections_spec(b, h) {
            Err(e) => Err(e),
            Ok(sections) => match imports_spec(b, h, sections) {
                Err(e) => Err(e),
                Ok(imports) => Ok(ArtifactView { sections, imports }),
            },
        },
    }
}

/// The outcome of a load seen as plain values.
pub open spec fn outcome_view(r: Result<PeArtifact, FormatError>) -> Result<
    ArtifactView,
    FormatError,
> {
    match r {
        Ok(a) => Ok(a@),
        Err(e) => Err(e),
    }
}

/// Decodes the bytes of a PE image into an artifact.
///
/// The buffer is untrusted: every read is checked against its length. The
/// outcome is a function of the bytes alone, and a failure returns no part
/// of an artifact.
pub fn load_pe(bytes: &[u8]) -> (r: Result<PeArtifact, FormatError>)
    ensures
        outcome_view(r) == parse_spec(bytes@),
        r matches Ok(a) ==> a.wf(),
{
    let headers = match parse_headers(bytes) {
        Ok(h) => h,
        Err(e) => {
            return Err(e);
        },
    };
    let sections = match read_sections(bytes, &headers) {
        Ok(s) => s,
        Err(e) => {
            return Err(e);
        },
    };
    let imports = match walk_imports(bytes, &headers, sections.as_slice()) {
        Ok(i) => i,
        Err(e) => {
            return Err(e);
        },
    };
    Ok(PeArtifact { sections, imports })
}

/// A loader that checks images without keeping what it decodes.
pub struct Loader {
    _data: Vec<u8>,
}

impl View for Loader {
    type V = Seq<u8>;

    closed spec fn view(&self) -> Seq<u8> {
        self._data@
    }
}

impl Loader {
    /// A loader that holds no data.
    pub fn new() -> (l: Self)
        ensures
            l@ == Seq::<u8>::empty(),
    {
        Self { _data: Vec::new() }
    }

    /// Decodes `bytes` as `load_pe` does and drops the artifact: the result
    /// tells whether the image is well-formed, and why not.
    pub fn load(&self, bytes: &[u8]) -> (r: Result<(), FormatError>)
        ensures
            match r {
                Ok(_) => parse_spec(bytes@) is Ok,
                Err(e) => parse_spec(bytes@) == Err::<ArtifactView, FormatError>(e),
            },
    {
        match load_pe(bytes) {
            Ok(_) => Ok(()),
            Err(e) => Err(e),
        }
    }
}

} // verus!
