//! The rows that a tree shows: the root, then every group, the subgroups
//! of the groups that are open, and the leaves of the subgroups that are
//! open.

use vstd::prelude::*;
use vstd::string::*;
use crate::display::state::Message;
use crate::display::tree::{AssemblyData, AssemblyView, ClassData, ClassView, NamespaceData, NamespaceView};

verus! {

/// Indentation of a subgroup's row.
pub const CLASS_INDENT: u16 = 20;

/// Indentation of a leaf's row.
pub const METHOD_INDENT: u16 = 40;

/// One row of the sidebar.
#[derive(Debug)]
pub struct TreeRow {
    /// The text of the row.
    pub label: String,
    /// How far the row is indented.
    pub indent: u16,
    /// The event that a click on the row raises; the root raises none.
    pub on_press: Option<Message>,
}

/// A row seen as plain values.
pub struct RowView {
    pub label: Seq<char>,
    pub indent: u16,
    pub on_press: Option<Message>,
}

impl View for TreeRow {
    type V = RowView;

    open spec fn view(&self) -> RowView {
        RowView { label: self.label@, indent: self.indent, on_press: self.on_press }
    }
}

/// The views of a sequence of rows, in the same order.
pub open spec fn rows_view(s: Seq<TreeRow>) -> Seq<RowView> {
    Seq::new(s.len(), |i: int| s[i]@)
}

/// The mark before the label of a group: down when open, right when closed.
pub open spec fn marker(expanded: bool) -> Seq<char> {
    if expanded {
        "▼ "@
    } else {
        "▶ "@
    }
}

/// The rows of the leaves of subgroup `j` of group `i`.
pub open spec fn method_rows(c: ClassView, i: usize, j: usize) -> Seq<RowView> {
    Seq::new(
        c.methods.len(),
        |k: int|
            RowView {
                label: c.methods[k].name,
                indent: METHOD_INDENT,
                on_press: Some(Message::SelectMethod(i, j, k as usize)),
            },
    )
}

/// The rows of subgroup `j` of group `i`: its own, then those of its
/// leaves if it is open.
pub open spec fn class_rows(c: ClassView, i: usize, j: usize) -> Seq<RowView> {
    let head = RowView {
        label: marker(c.is_expanded) + c.name,
        indent: CLASS_INDENT,
        on_press: Some(Message::ToggleClass(i, j)),
    };
    if c.is_expanded {
        seq![head] + method_rows(c, i, j)
    } else {
        seq![head]
    }
}

/// The rows of the first `upto` subgroups of group `i`.
pub open spec fn classes_rows(ns: NamespaceView, i: usize, upto: int) -> Seq<RowView>
    decreases upto,
{
    if upto <= 0 {
        Seq::empty()
    } else {
        classes_rows(ns, i, upto - 1) + class_rows(ns.classes[upto - 1], i, (upto - 1) as usize)
    }
}

/// The rows of group `i`: its own, then those of its subgroups if it is
/// open.
pub open spec fn namespace_rows(ns: NamespaceView, i: usize) -> Seq<RowView> {
    let head = RowView {
        label: marker(ns.is_expanded) + ns.name,
        indent: 0,
        on_press: Some(Message::ToggleNamespace(i)),
    };
    if ns.is_expanded {
        seq![head] + classes_rows(ns, i, ns.classes.len() as int)
    } else {
        seq![head]
    }
}

/// The rows of the first `upto` groups of a tree.
pub open spec fn namespaces_rows(t: AssemblyView, upto: int) -> Seq<RowView>
    decreases upto,
{
    if upto <= 0 {
        Seq::empty()
    } else {
        namespaces_rows(t, upto - 1) + namespace_rows(t.namespaces[upto - 1], (upto - 1) as usize)
    }
}

/// The rows of a tree: the root's label, then the rows of its groups in
/// order.
pub open spec fn tree_rows(t: AssemblyView) -> Seq<RowView> {
    seq![RowView { label: t.name, indent: 0, on_press: None }] + namespaces_rows(
        t,
        t.namespaces.len() as int,
    )
}

fn marked_label(expanded: bool, name: &String) -> (s: String)
    ensures
        s@ == marker(expanded) + name@,
{
    let mut s = if expanded {
        String::from_str("▼ ")
    } else {
        String::from_str("▶ ")
    };
    s.append(name.as_str());
    s
}

fn push_class_rows(out: &mut Vec<TreeRow>, class: &ClassData, i: usize, j: usize)
    ensures
        rows_view(final(out)@) == rows_view(old(out)@) + class_rows(class@, i, j),
{
    let ghost before = rows_view(out@);
    out.push(
        TreeRow {
            label: marked_label(class.is_expanded, &class.name),
            indent: CLASS_INDENT,
            on_press: Some(Message::ToggleClass(i, j)),
        },
    );
    if class.is_expanded {
        let ghost head = rows_view(out@);
        let mut k: usize = 0;
        while k < class.methods.len()
            invariant
                k <= class.methods@.len(),
                head.len() == before.len() + 1,
                rows_view(out@) == head + method_rows(class@, i, j).subrange(0, k as int),
            decreases class.methods@.len() - k,
        {
            let ghost shown = out@;
            let row = TreeRow {
                label: class.methods[k].name.clone(),
                indent: METHOD_INDENT,
                on_press: Some(Message::SelectMethod(i, j, k)),
            };
            assert(row@ == method_rows(class@, i, j)[k as int]);
            out.push(row);
            assert(rows_view(out@) =~= rows_view(shown).push(row@));
            assert(rows_view(out@) =~= head + method_rows(class@, i, j).subrange(0, k + 1));
            k = k + 1;
        }
        assert(rows_view(out@) =~= before + class_rows(class@, i, j));
    } else {
        assert(rows_view(out@) =~= before + class_rows(class@, i, j));
    }
}

fn push_namespace_rows(out: &mut Vec<TreeRow>, ns: &NamespaceData, i: usize)
    ensures
        rows_view(final(out)@) == rows_view(old(out)@) + namespace_rows(ns@, i),
{
    let ghost before = rows_view(out@);
    out.push(
        TreeRow {
            label: marked_label(ns.is_expanded, &ns.name),
            indent: 0,
            on_press: Some(Message::ToggleNamespace(i)),
        },
    );
    if ns.is_expanded {
        let ghost head = rows_view(out@);
        let mut j: usize = 0;
        while j < ns.classes.len()
            invariant
                j <= ns.classes@.len(),
                head.len() == before.len() + 1,
                rows_view(out@) == head + classes_rows(ns@, i, j as int),
            decreases ns.classes@.len() - j,
        {
            push_class_rows(out, &ns.classes[j], i, j);
            assert(rows_view(out@) =~= head + classes_rows(ns@, i, j + 1));
            j = j + 1;
        }
        assert(rows_view(out@) =~= before + namespace_rows(ns@, i));
    } else {
        assert(rows_view(out@) =~= before + namespace_rows(ns@, i));
    }
}

/// Lists the rows that the sidebar shows for a tree, top to bottom.
///
/// A closed group hides its subgroups and a closed subgroup its leaves;
/// the root and the groups are always listed. Every row but the root's
/// carries the event of a click on it, with the indices of what it shows.
pub fn visible_rows(tree: &AssemblyData) -> (rows: Vec<TreeRow>)
    ensures
        rows_view(rows@) == tree_rows(tree@),
{
    let mut out: Vec<TreeRow> = Vec::new();
    out.push(TreeRow { label: tree.name.clone(), indent: 0, on_press: None });
    let ghost head = rows_view(out@);
    let mut i: usize = 0;
    while i < tree.namespaces.len()
        invariant
            i <= tree.namespaces@.len(),
            head =~= seq![RowView { label: tree@.name, indent: 0, on_press: None }],
            rows_view(out@) == head + namespaces_rows(tree@, i as int),
        decreases tree.namespaces@.len() - i,
    {
        push_namespace_rows(&mut out, &tree.namespaces[i], i);
        assert(rows_view(out@) =~= head + namespaces_rows(tree@, i + 1));
        i = i + 1;
    }
    out
}

} // verus!
