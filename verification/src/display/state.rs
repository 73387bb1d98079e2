//! The state of the view and how each event changes it.
//!
//! The shell that owns the window feeds every event to `update` and
//! performs the action that comes back; opening a dialog and reading a
//! file are its business, deciding what follows from them is done here.
//!
//! Loads run beside the view and may end in any order. Every load is
//! started under a request number, each greater than the last, and reports
//! back under it; only the outcome of the latest request is taken, so a slow
//! older load can never replace what a newer one has shown.

use std::path::PathBuf;
use vstd::prelude::*;
use crate::display::tree::{AssemblyData, AssemblyView, ClassView, MethodData, MethodView, NamespaceView};

verus! {

/// Trusted: declares `PathBuf` of the standard library as a type whose
/// values are carried through unread. Nothing is claimed of what a path
/// holds.
#[verifier::external_type_specification]
#[verifier::external_body]
pub struct ExPathBuf(PathBuf);

/// Trusted: `PathBuf::clone` of the standard library returns a path equal
/// to the one it is given.
pub assume_specification[ <PathBuf as Clone>::clone ](path: &PathBuf) -> (res: PathBuf)
    ensures
        res == *path,
;

/// Trusted: `Result::clone` of the standard library keeps the variant and
/// clones what it holds.
pub assume_specification<T: Clone, E: Clone>[ <Result<T, E> as Clone>::clone ](
    r: &Result<T, E>,
) -> (res: Result<T, E>)
    ensures
        r is Ok ==> res is Ok && cloned::<T>(r->Ok_0, res->Ok_0),
        r is Err ==> res is Err && cloned::<E>(r->Err_0, res->Err_0),
;

/// What can happen to the view.
#[derive(Debug, Clone)]
pub enum Message {
    /// The user asked to open a file.
    OpenFile,
    /// The file dialog closed, with the chosen path if any.
    FileSelected(Option<PathBuf>),
    /// The load started under this request number ended, with the tree to
    /// show or the text of its failure.
    FileLoaded(u64, Result<AssemblyData, String>),
    /// The user clicked the group at this index.
    ToggleNamespace(usize),
    /// The user clicked the subgroup at these indices.
    ToggleClass(usize, usize),
    /// The user clicked the leaf at these indices.
    SelectMethod(usize, usize, usize),
}

/// What the shell has to do after an event.
#[derive(Debug, Clone)]
pub enum Action {
    /// Nothing.
    Idle,
    /// Ask the user for a file, and report the answer as `FileSelected`.
    PickFile,
    /// Load the file at this path, and report the outcome as `FileLoaded`
    /// under this request number.
    LoadFile(u64, PathBuf),
}

/// What the view shows.
#[derive(Debug)]
pub struct AppState {
    /// The tree of the last load that succeeded.
    pub tree_data: Option<AssemblyData>,
    /// The leaf whose text is shown.
    pub selected_method: Option<MethodData>,
    /// The failure of the last load, if it failed.
    pub error_message: Option<String>,
    /// The number of the latest load request; zero while none was made.
    pub latest_request: u64,
}

/// The state of the view seen as plain values.
pub struct StateView {
    pub tree: Option<AssemblyView>,
    pub selected: Option<MethodView>,
    pub error: Option<Seq<char>>,
    pub latest_request: u64,
}

impl View for AppState {
    type V = StateView;

    open spec fn view(&self) -> StateView {
        StateView {
            tree: match self.tree_data {
                Some(t) => Some(t@),
                None => None,
            },
            selected: match self.selected_method {
                Some(m) => Some(m@),
                None => None,
            },
            error: match self.error_message {
                Some(e) => Some(e@),
                None => None,
            },
            latest_request: self.latest_request,
        }
    }
}

/// `t` with the expansion flag of group `i` flipped; unchanged when there
/// is no such group.
pub open spec fn toggle_namespace(t: AssemblyView, i: int) -> AssemblyView {
    if 0 <= i < t.namespaces.len() {
        let ns = t.namespaces[i];
        AssemblyView {
            name: t.name,
            namespaces: t.namespaces.update(
                i,
                NamespaceView { name: ns.name, classes: ns.classes, is_expanded: !ns.is_expanded },
            ),
        }
    } else {
        t
    }
}

/// `t` with the expansion flag of subgroup `j` of group `i` flipped;
/// unchanged when there is no such subgroup.
pub open spec fn toggle_class(t: AssemblyView, i: int, j: int) -> AssemblyView {
    if 0 <= i < t.namespaces.len() && 0 <= j < t.namespaces[i].classes.len() {
        let ns = t.namespaces[i];
        let c = ns.classes[j];
        AssemblyView {
            name: t.name,
            namespaces: t.namespaces.update(
                i,
                NamespaceView {
                    name: ns.name,
                    classes: ns.classes.update(
                        j,
                        ClassView { name: c.name, methods: c.methods, is_expanded: !c.is_expanded },
                    ),
                    is_expanded: ns.is_expanded,
                },
            ),
        }
    } else {
        t
    }
}

/// The leaf `k` of subgroup `j` of group `i`, if there is one.
pub open spec fn method_at(t: AssemblyView, i: int, j: int, k: int) -> Option<MethodView> {
    if 0 <= i < t.namespaces.len() && 0 <= j < t.namespaces[i].classes.len() && 0 <= k
        < t.namespaces[i].classes[j].methods.len() {
        Some(t.namespaces[i].classes[j].methods[k])
    } else {
        None
    }
}

/// Whether another load can be requested: the request numbers are not
/// used up.
pub open spec fn can_request(s: StateView) -> bool {
    s.latest_request < u64::MAX
}

/// Whether `id` is the number of the latest load request.
pub open spec fn is_latest(s: StateView, id: u64) -> bool {
    id != 0 && id == s.latest_request
}

/// The state after an event.
///
/// A chosen path makes a new load request, numbered one above the latest.
/// The outcome of a load counts only if it comes under the number of the
/// latest request; any other outcome is dropped and changes nothing. A
/// load that succeeded replaces the tree and clears selection and error. A
/// load that failed sets the error and leaves the tree and the selection
/// of the last success as they are. A click on a group or subgroup flips
/// its flag; a click on a leaf selects it. Indices that name nothing, and
/// clicks while no tree is shown, change nothing.
pub open spec fn step(s: StateView, m: Message) -> StateView {
    match m {
        Message::OpenFile => s,
        Message::FileSelected(Some(_)) => if can_request(s) {
            StateView {
                tree: s.tree,
                selected: s.selected,
                error: s.error,
                latest_request: (s.latest_request + 1) as u64,
            }
        } else {
            s
        },
        Message::FileSelected(None) => s,
        Message::FileLoaded(id, outcome) => if is_latest(s, id) {
            match outcome {
                Ok(data) => StateView {
                    tree: Some(data@),
                    selected: None,
                    error: None,
                    latest_request: s.latest_request,
                },
                Err(e) => StateView {
                    tree: s.tree,
                    selected: s.selected,
                    error: Some(e@),
                    latest_request: s.latest_request,
                },
            }
        } else {
            s
        },
        Message::ToggleNamespace(i) => match s.tree {
            Some(t) => StateView {
                tree: Some(toggle_namespace(t, i as int)),
                selected: s.selected,
                error: s.error,
                latest_request: s.latest_request,
            },
            None => s,
        },
        Message::ToggleClass(i, j) => match s.tree {
            Some(t) => StateView {
                tree: Some(toggle_class(t, i as int, j as int)),
                selected: s.selected,
                error: s.error,
                latest_request: s.latest_request,
            },
            None => s,
        },
        Message::SelectMethod(i, j, k) => match s.tree {
            Some(t) => match method_at(t, i as int, j as int, k as int) {
                Some(m) => StateView {
                    tree: s.tree,
                    selected: Some(m),
                    error: s.error,
                    latest_request: s.latest_request,
                },
                None => s,
            },
            None => s,
        },
    }
}

/// What the shell has to do after an event that reached the state `s`: open
/// the dialog, start the load of a chosen path under the next request
/// number, or nothing. When the request numbers are used up no load starts.
pub open spec fn action_of(s: StateView, m: Message) -> Action {
    match m {
        Message::OpenFile => Action::PickFile,
        Message::FileSelected(Some(path)) => if can_request(s) {
            Action::LoadFile((s.latest_request + 1) as u64, path)
        } else {
            Action::Idle
        },
        _ => Action::Idle,
    }
}

/// The outcome of any load but the latest requested changes nothing.
pub proof fn lemma_stale_outcome_dropped(
    s: StateView,
    id: u64,
    outcome: Result<AssemblyData, String>,
)
    requires
        !is_latest(s, id),
    ensures
        step(s, Message::FileLoaded(id, outcome)) == s,
{
}

/// No event lowers the number of the latest request, and a chosen path
/// raises it by one while numbers are left: the numbers handed out with
/// `LoadFile` strictly increase.
pub proof fn lemma_requests_increase(s: StateView, m: Message)
    ensures
        step(s, m).latest_request >= s.latest_request,
        action_of(s, m) matches Action::LoadFile(id, _) ==> id == s.latest_request + 1 && step(
            s,
            m,
        ).latest_request == id,
{
}

/// A late result does not undo a newer one. Two loads are requested, one
/// after the other; the second ends first and its tree is shown; when the
/// first ends at last, whatever it brings, the view stays as it is.
pub proof fn lemma_last_request_wins(
    s: StateView,
    first: PathBuf,
    second: PathBuf,
    newer: AssemblyData,
    older: Result<AssemblyData, String>,
)
    requires
        s.latest_request + 2 <= u64::MAX,
    ensures
        ({
            let s1 = step(s, Message::FileSelected(Some(first)));
            let s2 = step(s1, Message::FileSelected(Some(second)));
            let s3 = step(s2, Message::FileLoaded(s2.latest_request, Ok(newer)));
            let s4 = step(s3, Message::FileLoaded(s1.latest_request, older));
            &&& action_of(s, Message::FileSelected(Some(first))) == Action::LoadFile(
                s1.latest_request,
                first,
            )
            &&& action_of(s1, Message::FileSelected(Some(second))) == Action::LoadFile(
                s2.latest_request,
                second,
            )
            &&& s3.tree == Some(newer@)
            &&& s4 == s3
        }),
{
}

impl AppState {
    /// The state of a view that has loaded nothing yet.
    pub fn new() -> (s: Self)
        ensures
            s@ == (StateView { tree: None, selected: None, error: None, latest_request: 0 }),
    {
        AppState { tree_data: None, selected_method: None, error_message: None, latest_request: 0 }
    }
}

/// Applies an event to the state and tells the shell what to do next.
pub fn update(state: &mut AppState, message: Message) -> (action: Action)
    ensures
        final(state)@ == step(old(state)@, message),
        action == action_of(old(state)@, message),
{
    match message {
        Message::OpenFile => Action::PickFile,
        Message::FileSelected(Some(path)) => {
            if state.latest_request < u64::MAX {
                state.latest_request = state.latest_request + 1;
                Action::LoadFile(state.latest_request, path)
            } else {
                Action::Idle
            }
        },
        Message::FileSelected(None) => Action::Idle,
        Message::FileLoaded(id, outcome) => {
            if id != 0 && id == state.latest_request {
                match outcome {
                    Ok(data) => {
                        state.tree_data = Some(data);
                        state.error_message = None;
                        state.selected_method = None;
                    },
                    Err(e) => {
                        state.error_message = Some(e);
                    },
                }
            }
            Action::Idle
        },
        Message::ToggleNamespace(i) => {
            match &mut state.tree_data {
                Some(data) => {
                    if i < data.namespaces.len() {
                        let ghost before = data@;
                        data.namespaces[i].is_expanded = !data.namespaces[i].is_expanded;
                        assert(data@.namespaces =~= toggle_namespace(before, i as int).namespaces);
                    }
                },
                None => {},
            }
            Action::Idle
        },
        Message::ToggleClass(i, j) => {
            match &mut state.tree_data {
                Some(data) => {
                    if i < data.namespaces.len() && j < data.namespaces[i].classes.len() {
                        let ghost before = data@;
                        data.namespaces[i].classes[j].is_expanded =
                            !data.namespaces[i].classes[j].is_expanded;
                        assert(data@.namespaces[i as int].classes =~= toggle_class(
                            before,
                            i as int,
                            j as int,
                        ).namespaces[i as int].classes);
                        assert(data@.namespaces =~= toggle_class(
                            before,
                            i as int,
                            j as int,
                        ).namespaces);
                    }
                },
                None => {},
            }
            Action::Idle
        },
        Message::SelectMethod(i, j, k) => {
            let picked: Option<MethodData> = match &state.tree_data {
                Some(data) => {
                    if i < data.namespaces.len() && j < data.namespaces[i].classes.len() && k
                        < data.namespaces[i].classes[j].methods.len() {
                        Some(data.namespaces[i].classes[j].methods[k].clone())
                    } else {
                        None
                    }
                },
                None => None,
            };
            match picked {
                Some(m) => {
                    state.selected_method = Some(m);
                },
                None => {},
            }
            Action::Idle
        },
    }
}

} // verus!
