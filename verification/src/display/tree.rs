//! The display tree: a root, two levels of groups, and leaves that carry a
//! descriptive text.

use std::sync::Arc;
use vstd::prelude::*;
use vstd::string::*;
use crate::pe::imports::{ImportInfo, ImportView};
use crate::pe::loader::{load_pe, parse_spec, ArtifactView, PeArtifact};
use crate::pe::sections::{SectionInfo, SectionView};
use crate::text::{hex_literal, push_hex};

verus! {

/// A leaf of the tree: a label and the text shown when it is selected.
#[derive(Debug)]
pub struct MethodData {
    pub name: String,
    pub il_code: Arc<String>,
}

/// A subgroup: a label, its leaves, and whether they are shown.
#[derive(Debug, Clone)]
pub struct ClassData {
    pub name: String,
    pub methods: Vec<MethodData>,
    pub is_expanded: bool,
}

/// A top-level group: a label, its subgroups, and whether they are shown.
#[derive(Debug, Clone)]
pub struct NamespaceData {
    pub name: String,
    pub classes: Vec<ClassData>,
    pub is_expanded: bool,
}

/// The root of the tree.
#[derive(Debug, Clone)]
pub struct AssemblyData {
    pub name: String,
    pub namespaces: Vec<NamespaceData>,
}

/// A leaf seen as plain values.
pub struct MethodView {
    pub name: Seq<char>,
    pub il_code: Seq<char>,
}

/// A subgroup seen as plain values.
pub struct ClassView {
    pub name: Seq<char>,
    pub methods: Seq<MethodView>,
    pub is_expanded: bool,
}

/// A top-level group seen as plain values.
pub struct NamespaceView {
    pub name: Seq<char>,
    pub classes: Seq<ClassView>,
    pub is_expanded: bool,
}

/// A tree seen as plain values.
pub struct AssemblyView {
    pub name: Seq<char>,
    pub namespaces: Seq<NamespaceView>,
}

impl View for MethodData {
    type V = MethodView;

    open spec fn view(&self) -> MethodView {
        MethodView { name: self.name@, il_code: self.il_code@ }
    }
}

/// The views of a sequence of leaves, in the same order.
pub open spec fn methods_view(s: Seq<MethodData>) -> Seq<MethodView> {
    Seq::new(s.len(), |i: int| s[i]@)
}

impl View for ClassData {
    type V = ClassView;

    open spec fn view(&self) -> ClassView {
        ClassView {
            name: self.name@,
            methods: methods_view(self.methods@),
            is_expanded: self.is_expanded,
        }
    }
}

/// The views of a sequence of subgroups, in the same order.
pub open spec fn classes_view(s: Seq<ClassData>) -> Seq<ClassView> {
    Seq::new(s.len(), |i: int| s[i]@)
}

impl View for NamespaceData {
    type V = NamespaceView;

    open spec fn view(&self) -> NamespaceView {
        NamespaceView {
            name: self.name@,
            classes: classes_view(self.classes@),
            is_expanded: self.is_expanded,
        }
    }
}

/// The views of a sequence of groups, in the same order.
pub open spec fn namespaces_view(s: Seq<NamespaceData>) -> Seq<NamespaceView> {
    Seq::new(s.len(), |i: int| s[i]@)
}

impl View for AssemblyData {
    type V = AssemblyView;

    open spec fn view(&self) -> AssemblyView {
        AssemblyView { name: self.name@, namespaces: namespaces_view(self.namespaces@) }
    }
}

/// Hands out another handle to a shared text.
///
/// Trusted: calls `Arc::clone` of the standard library, which returns a
/// pointer to the same allocation; the contract says that the new handle
/// holds the value of the old one.
#[verifier::external_body]
fn share_text(text: &Arc<String>) -> (r: Arc<String>)
    ensures
        r == *text,
{
    Arc::clone(text)
}

impl Clone for MethodData {
    /// A leaf with the same label that shares the text of this one.
    fn clone(&self) -> (r: Self)
        ensures
            r@ == self@,
    {
        MethodData { name: self.name.clone(), il_code: share_text(&self.il_code) }
    }
}

// ---------------------------------------------------------------------
// What the tree of an artifact is
// ---------------------------------------------------------------------

/// The text of the leaf for `symbol` imported from `dll`.
pub open spec fn import_text(dll: Seq<char>, symbol: Seq<char>) -> Seq<char> {
    "// Imported from "@ + dll + "\nextern "@ + symbol
}

/// The text of the leaf for a section: its name, and its virtual address
/// and virtual size in hexadecimal.
pub open spec fn section_text(s: SectionView) -> Seq<char> {
    "Section: "@ + s.name + "\nVirtual Address: "@ + hex_literal(s.virtual_address as nat)
        + "\nVirtual Size: "@ + hex_literal(s.virtual_size as nat)
}

/// The leaf for `symbol` imported from `dll`.
pub open spec fn import_leaf(dll: Seq<char>, symbol: Seq<char>) -> MethodView {
    MethodView { name: symbol, il_code: import_text(dll, symbol) }
}

/// The subgroup of an import group: labelled with the library, collapsed,
/// with one leaf per symbol in the group's order.
pub open spec fn import_class(g: ImportView) -> ClassView {
    ClassView {
        name: g.dll,
        methods: Seq::new(g.symbols.len(), |i: int| import_leaf(g.dll, g.symbols[i])),
        is_expanded: false,
    }
}

/// The leaf of a section.
pub open spec fn section_leaf(s: SectionView) -> MethodView {
    MethodView { name: s.name, il_code: section_text(s) }
}

/// The `Imports` group: expanded, with one subgroup per import group.
pub open spec fn imports_namespace(imports: Seq<ImportView>) -> NamespaceView {
    NamespaceView {
        name: "Imports"@,
        classes: Seq::new(imports.len(), |i: int| import_class(imports[i])),
        is_expanded: true,
    }
}

/// The `Sections` subgroup: collapsed, with one leaf per section in table
/// order.
pub open spec fn sections_class(sections: Seq<SectionView>) -> ClassView {
    ClassView {
        name: "Sections"@,
        methods: Seq::new(sections.len(), |i: int| section_leaf(sections[i])),
        is_expanded: false,
    }
}

/// The `Metadata` group: expanded, with the `Sections` subgroup alone.
pub open spec fn metadata_namespace(sections: Seq<SectionView>) -> NamespaceView {
    NamespaceView {
        name: "Metadata"@,
        classes: seq![sections_class(sections)],
        is_expanded: true,
    }
}

/// The tree of an artifact under the root label `name`: the `Imports`
/// group, then the `Metadata` group.
pub open spec fn assembly_spec(name: Seq<char>, a: ArtifactView) -> AssemblyView {
    AssemblyView {
        name,
        namespaces: seq![imports_namespace(a.imports), metadata_namespace(a.sections)],
    }
}

/// The shape of the tree of an artifact: two groups, `Imports` and
/// `Metadata`; as many subgroups under `Imports` as the artifact has
/// import groups, each with as many leaves as the group has symbols; under
/// `Metadata` the one subgroup `Sections`, with as many leaves as the
/// artifact has sections.
pub proof fn lemma_tree_shape(name: Seq<char>, a: ArtifactView)
    ensures
        assembly_spec(name, a).namespaces.len() == 2,
        assembly_spec(name, a).namespaces[0].name == "Imports"@,
        assembly_spec(name, a).namespaces[0].classes.len() == a.imports.len(),
        forall|i: int|
            0 <= i < a.imports.len() ==> (#[trigger] assembly_spec(
                name,
                a,
            ).namespaces[0].classes[i]).methods.len() == a.imports[i].symbols.len(),
        assembly_spec(name, a).namespaces[1].name == "Metadata"@,
        assembly_spec(name, a).namespaces[1].classes.len() == 1,
        assembly_spec(name, a).namespaces[1].classes[0].name == "Sections"@,
        assembly_spec(name, a).namespaces[1].classes[0].methods.len() == a.sections.len(),
{
}

// ---------------------------------------------------------------------
// Building it
// ---------------------------------------------------------------------

fn build_import_leaf(dll: &String, symbol: &String) -> (m: MethodData)
    ensures
        m@ == import_leaf(dll@, symbol@),
{
    let mut text = String::from_str("// Imported from ");
    text.append(dll.as_str());
    text.append("\nextern ");
    text.append(symbol.as_str());
    MethodData { name: symbol.clone(), il_code: Arc::new(text) }
}

fn build_import_class(group: &ImportInfo) -> (c: ClassData)
    ensures
        c@ == import_class(group@),
{
    let mut methods: Vec<MethodData> = Vec::new();
    let mut i: usize = 0;
    while i < group.symbols.len()
        invariant
            i <= group.symbols@.len(),
            methods@.len() == i,
            forall|k: int|
                0 <= k < i ==> (#[trigger] methods@[k])@ == import_leaf(
                    group.dll@,
                    group.symbols@[k]@,
                ),
        decreases group.symbols@.len() - i,
    {
        methods.push(build_import_leaf(&group.dll, &group.symbols[i]));
        i = i + 1;
    }
    assert(methods_view(methods@) =~= import_class(group@).methods);
    ClassData { name: group.dll.clone(), methods, is_expanded: false }
}

fn build_section_leaf(section: &SectionInfo) -> (m: MethodData)
    ensures
        m@ == section_leaf(section@),
{
    let mut text = String::from_str("Section: ");
    text.append(section.name.as_str());
    text.append("\nVirtual Address: ");
    push_hex(&mut text, section.virtual_address as u64);
    text.append("\nVirtual Size: ");
    push_hex(&mut text, section.virtual_size as u64);
    MethodData { name: section.name.clone(), il_code: Arc::new(text) }
}

/// Builds the display tree of an artifact under the root label `name`.
///
/// The artifact is only read: the tree holds copies of its names. The
/// expansion flags are the defaults of a fresh tree, groups open and
/// subgroups closed.
pub fn build_assembly(name: String, artifact: &PeArtifact) -> (t: AssemblyData)
    ensures
        t@ == assembly_spec(name@, artifact@),
{
    let mut import_classes: Vec<ClassData> = Vec::new();
    let mut i: usize = 0;
    while i < artifact.imports.len()
        invariant
            i <= artifact.imports@.len(),
            import_classes@.len() == i,
            forall|k: int|
                0 <= k < i ==> (#[trigger] import_classes@[k])@ == import_class(
                    artifact.imports@[k]@,
                ),
        decreases artifact.imports@.len() - i,
    {
        import_classes.push(build_import_class(&artifact.imports[i]));
        i = i + 1;
    }
    let imports_ns = NamespaceData {
        name: String::from_str("Imports"),
        classes: import_classes,
        is_expanded: true,
    };
    assert(imports_ns@.classes =~= imports_namespace(artifact@.imports).classes);

    let mut section_methods: Vec<MethodData> = Vec::new();
    let mut j: usize = 0;
    while j < artifact.sections.len()
        invariant
            j <= artifact.sections@.len(),
            section_methods@.len() == j,
            forall|k: int|
                0 <= k < j ==> (#[trigger] section_methods@[k])@ == section_leaf(
                    artifact.sections@[k]@,
                ),
        decreases artifact.sections@.len() - j,
    {
        section_methods.push(build_section_leaf(&artifact.sections[j]));
        j = j + 1;
    }
    let sections_class_data = ClassData {
        name: String::from_str("Sections"),
        methods: section_methods,
        is_expanded: false,
    };
    assert(sections_class_data@.methods =~= sections_class(artifact@.sections).methods);
    let mut metadata_classes: Vec<ClassData> = Vec::new();
    metadata_classes.push(sections_class_data);
    let metadata_ns = NamespaceData {
        name: String::from_str("Metadata"),
        classes: metadata_classes,
        is_expanded: true,
    };
    assert(metadata_ns@.classes =~= metadata_namespace(artifact@.sections).classes);
    let mut namespaces: Vec<NamespaceData> = Vec::new();
    namespaces.push(imports_ns);
    namespaces.push(metadata_ns);
    let tree = AssemblyData { name, namespaces };
    assert(tree@.namespaces =~= assembly_spec(name@, artifact@).namespaces);
    tree
}

/// What loading `bytes` for display gives: the tree of the artifact, or
/// the diagnostic text of the failure.
pub open spec fn load_assembly_spec(name: Seq<char>, bytes: Seq<u8>) -> Result<
    AssemblyView,
    Seq<char>,
> {
    match parse_spec(bytes) {
        Ok(a) => Ok(assembly_spec(name, a)),
        Err(e) => Err(e.message_spec()),
    }
}

/// Decodes the bytes of an image and builds its display tree under the
/// root label `name`; a failure gives the text to show instead.
pub fn load_assembly(name: String, bytes: &[u8]) -> (r: Result<AssemblyData, String>)
    ensures
        match r {
            Ok(t) => load_assembly_spec(name@, bytes@) == Ok::<AssemblyView, Seq<char>>(t@),
            Err(m) => load_assembly_spec(name@, bytes@) == Err::<AssemblyView, Seq<char>>(m@),
        },
{
    match load_pe(bytes) {
        Ok(artifact) => Ok(build_assembly(name, &artifact)),
        Err(e) => Err(e.message()),
    }
}

} // verus!
