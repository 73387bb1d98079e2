use std::path::PathBuf;
use std::sync::Arc;

use rustspy::display::rows::{visible_rows, TreeRow};
use rustspy::display::state::{update, Action, AppState, Message};
use rustspy::display::tree::{build_assembly, load_assembly, AssemblyData, ClassData, MethodData, NamespaceData};
use rustspy::pe::imports::ImportInfo;
use rustspy::pe::loader::PeArtifact;
use rustspy::pe::sections::SectionInfo;

fn text_section() -> SectionInfo {
    SectionInfo {
        name: ".text".to_string(),
        virtual_address: 0x1000,
        virtual_size: 0x100,
        pointer_to_raw_data: 0x200,
        size_of_raw_data: 0x200,
    }
}

fn sample_artifact() -> PeArtifact {
    PeArtifact {
        sections: vec![
            text_section(),
            SectionInfo {
                name: ".rdata".to_string(),
                virtual_address: 0xABCD_EF01,
                virtual_size: 0,
                pointer_to_raw_data: 0,
                size_of_raw_data: 0,
            },
        ],
        imports: vec![
            ImportInfo {
                dll: "KERNEL32.DLL".to_string(),
                symbols: vec!["ExitProcess".to_string(), "Ordinal5".to_string()],
            },
            ImportInfo { dll: "empty.dll".to_string(), symbols: vec![] },
        ],
    }
}

fn sample_tree() -> AssemblyData {
    build_assembly("sample.exe".to_string(), &sample_artifact())
}

/// Requests a load and delivers its outcome under the number it was given.
fn load(state: &mut AppState, outcome: Result<AssemblyData, String>) -> Action {
    let request = request(state, "some.exe");
    update(state, Message::FileLoaded(request, outcome))
}

/// Requests a load and returns its number.
fn request(state: &mut AppState, path: &str) -> u64 {
    match update(state, Message::FileSelected(Some(PathBuf::from(path)))) {
        Action::LoadFile(id, p) => {
            assert_eq!(p, PathBuf::from(path));
            id
        }
        other => panic!("unexpected action {:?}", other),
    }
}

fn labels(rows: &[TreeRow]) -> Vec<String> {
    rows.iter().map(|r| r.label.clone()).collect()
}

fn method_names(class: &ClassData) -> Vec<String> {
    class.methods.iter().map(|m| m.name.clone()).collect()
}

fn minimal_image() -> Vec<u8> {
    let mut data = vec![0u8; 0x200];
    data[0] = b'M';
    data[1] = b'Z';
    data[0x3C] = 0x40;
    data[0x40..0x44].copy_from_slice(b"PE\0\0");
    data[0x46] = 1;
    data[0x54] = 0xE0;
    data[0x58] = 0x0B;
    data[0x59] = 0x01;
    let table = 0x40 + 24 + 0xE0;
    data[table..table + 5].copy_from_slice(b".text");
    data[table + 8..table + 12].copy_from_slice(&0x100u32.to_le_bytes());
    data[table + 12..table + 16].copy_from_slice(&0x1000u32.to_le_bytes());
    data
}

#[test]
fn tree_of_one_section_and_no_imports() {
    let artifact = PeArtifact { sections: vec![text_section()], imports: vec![] };
    let tree = build_assembly("valid.exe".to_string(), &artifact);
    assert_eq!(tree.name, "valid.exe");
    assert_eq!(tree.namespaces.len(), 2);
    let imports = &tree.namespaces[0];
    assert_eq!(imports.name, "Imports");
    assert_eq!(imports.classes.len(), 0);
    assert!(imports.is_expanded);
    let metadata = &tree.namespaces[1];
    assert_eq!(metadata.name, "Metadata");
    assert!(metadata.is_expanded);
    assert_eq!(metadata.classes.len(), 1);
    assert_eq!(metadata.classes[0].name, "Sections");
    assert!(!metadata.classes[0].is_expanded);
    assert_eq!(metadata.classes[0].methods.len(), 1);
    assert_eq!(metadata.classes[0].methods[0].name, ".text");
}

#[test]
fn tree_mirrors_groups_and_sections_in_order() {
    let tree = sample_tree();
    let imports = &tree.namespaces[0];
    assert_eq!(imports.classes.len(), 2);
    assert_eq!(imports.classes[0].name, "KERNEL32.DLL");
    assert!(!imports.classes[0].is_expanded);
    assert_eq!(method_names(&imports.classes[0]), vec!["ExitProcess", "Ordinal5"]);
    assert_eq!(imports.classes[1].name, "empty.dll");
    assert!(!imports.classes[1].is_expanded);
    assert_eq!(imports.classes[1].methods.len(), 0);
    let sections = &tree.namespaces[1].classes[0];
    assert_eq!(method_names(sections), vec![".text", ".rdata"]);
}

#[test]
fn leaf_texts_are_exact() {
    let tree = sample_tree();
    let kernel = &tree.namespaces[0].classes[0];
    assert_eq!(*kernel.methods[0].il_code, "// Imported from KERNEL32.DLL\nextern ExitProcess");
    assert_eq!(*kernel.methods[1].il_code, "// Imported from KERNEL32.DLL\nextern Ordinal5");
    let sections = &tree.namespaces[1].classes[0];
    assert_eq!(
        *sections.methods[0].il_code,
        "Section: .text\nVirtual Address: 0x1000\nVirtual Size: 0x100"
    );
    assert_eq!(
        *sections.methods[1].il_code,
        "Section: .rdata\nVirtual Address: 0xabcdef01\nVirtual Size: 0x0"
    );
    let s = &sample_artifact().sections[1];
    assert_eq!(
        *sections.methods[1].il_code,
        format!(
            "Section: {}\nVirtual Address: {:#x}\nVirtual Size: {:#x}",
            s.name, s.virtual_address, s.virtual_size
        )
    );
}

#[test]
fn load_assembly_builds_the_tree_or_gives_the_message() {
    let tree = load_assembly("mini.dll".to_string(), &minimal_image()).unwrap();
    assert_eq!(tree.name, "mini.dll");
    assert_eq!(tree.namespaces[0].classes.len(), 0);
    assert_eq!(method_names(&tree.namespaces[1].classes[0]), vec![".text"]);
    assert_eq!(
        *tree.namespaces[1].classes[0].methods[0].il_code,
        "Section: .text\nVirtual Address: 0x1000\nVirtual Size: 0x100"
    );
    let failure = load_assembly("x".to_string(), b"NOT A PE FILE").unwrap_err();
    assert_eq!(failure, "Failed to parse PE file: TruncatedHeader");
    let mut bad = minimal_image();
    bad[0x41] = 0;
    assert_eq!(
        load_assembly("x".to_string(), &bad).unwrap_err(),
        "Failed to parse PE file: BadPeMagic"
    );
}

#[test]
fn a_fresh_state_shows_nothing() {
    let state = AppState::new();
    assert!(state.tree_data.is_none());
    assert!(state.selected_method.is_none());
    assert!(state.error_message.is_none());
}

#[test]
fn open_file_asks_for_a_dialog() {
    let mut state = AppState::new();
    assert!(matches!(update(&mut state, Message::OpenFile), Action::PickFile));
    assert!(state.tree_data.is_none());
    assert!(state.error_message.is_none());
}

#[test]
fn a_chosen_path_asks_for_a_load() {
    let mut state = AppState::new();
    assert_eq!(state.latest_request, 0);
    let path = PathBuf::from("dir/some.exe");
    match update(&mut state, Message::FileSelected(Some(path.clone()))) {
        Action::LoadFile(id, p) => {
            assert_eq!(id, 1);
            assert_eq!(p, path);
        }
        other => panic!("unexpected action {:?}", other),
    }
    assert_eq!(state.latest_request, 1);
    assert!(matches!(update(&mut state, Message::FileSelected(None)), Action::Idle));
    assert_eq!(state.latest_request, 1);
    assert!(state.tree_data.is_none());
}

#[test]
fn request_numbers_increase() {
    let mut state = AppState::new();
    assert_eq!(request(&mut state, "a"), 1);
    assert_eq!(request(&mut state, "b"), 2);
    update(&mut state, Message::OpenFile);
    update(&mut state, Message::ToggleNamespace(0));
    update(&mut state, Message::FileLoaded(2, Err("e".to_string())));
    assert_eq!(request(&mut state, "c"), 3);
    assert_eq!(state.latest_request, 3);
}

#[test]
fn a_late_result_of_an_older_load_is_dropped() {
    let mut state = AppState::new();
    let first = request(&mut state, "first.exe");
    let second = request(&mut state, "second.exe");
    let older = build_assembly("first.exe".to_string(), &sample_artifact());
    let newer = build_assembly("second.exe".to_string(), &PeArtifact { sections: vec![], imports: vec![] });
    update(&mut state, Message::FileLoaded(second, Ok(newer)));
    assert_eq!(state.tree_data.as_ref().unwrap().name, "second.exe");
    let shown = format!("{:?}", state);
    assert!(matches!(update(&mut state, Message::FileLoaded(first, Ok(older))), Action::Idle));
    assert_eq!(state.tree_data.as_ref().unwrap().name, "second.exe");
    assert_eq!(format!("{:?}", state), shown);
    // a late failure is dropped as well
    update(&mut state, Message::FileLoaded(first, Err("late".to_string())));
    assert!(state.error_message.is_none());
    assert_eq!(format!("{:?}", state), shown);
}

#[test]
fn an_early_result_of_an_older_load_is_dropped_too() {
    let mut state = AppState::new();
    let first = request(&mut state, "first.exe");
    let second = request(&mut state, "second.exe");
    update(&mut state, Message::FileLoaded(first, Ok(sample_tree())));
    assert!(state.tree_data.is_none());
    update(&mut state, Message::FileLoaded(second, Err("bad".to_string())));
    assert_eq!(state.error_message.as_deref(), Some("bad"));
}

#[test]
fn results_under_unknown_numbers_are_dropped() {
    let mut state = AppState::new();
    // nothing was requested yet
    update(&mut state, Message::FileLoaded(0, Ok(sample_tree())));
    update(&mut state, Message::FileLoaded(1, Ok(sample_tree())));
    assert!(state.tree_data.is_none());
    let id = request(&mut state, "a");
    update(&mut state, Message::FileLoaded(id + 1, Ok(sample_tree())));
    update(&mut state, Message::FileLoaded(u64::MAX, Err("x".to_string())));
    assert!(state.tree_data.is_none());
    assert!(state.error_message.is_none());
}

#[test]
fn no_load_starts_when_the_numbers_are_used_up() {
    let mut state = AppState::new();
    state.latest_request = u64::MAX - 1;
    assert_eq!(request(&mut state, "last"), u64::MAX);
    assert!(matches!(
        update(&mut state, Message::FileSelected(Some(PathBuf::from("more")))),
        Action::Idle
    ));
    assert_eq!(state.latest_request, u64::MAX);
    update(&mut state, Message::FileLoaded(u64::MAX, Ok(sample_tree())));
    assert_eq!(state.tree_data.as_ref().unwrap().name, "sample.exe");
}

#[test]
fn a_successful_load_replaces_tree_and_clears_the_rest() {
    let mut state = AppState::new();
    load(&mut state, Err("first failure".to_string()));
    load(&mut state, Ok(sample_tree()));
    update(&mut state, Message::SelectMethod(0, 0, 0));
    assert!(state.selected_method.is_some());
    load(&mut state, Err("second failure".to_string()));
    let newer = build_assembly("newer.exe".to_string(), &PeArtifact { sections: vec![], imports: vec![] });
    assert!(matches!(load(&mut state, Ok(newer)), Action::Idle));
    assert_eq!(state.tree_data.as_ref().unwrap().name, "newer.exe");
    assert!(state.selected_method.is_none());
    assert!(state.error_message.is_none());
}

#[test]
fn a_failed_load_keeps_the_last_tree() {
    let mut state = AppState::new();
    load(&mut state, Ok(sample_tree()));
    update(&mut state, Message::SelectMethod(1, 0, 1));
    assert!(matches!(
        load(&mut state, Err("Failed to parse PE file: BadDosMagic".to_string())),
        Action::Idle
    ));
    assert_eq!(state.error_message.as_deref(), Some("Failed to parse PE file: BadDosMagic"));
    assert_eq!(state.tree_data.as_ref().unwrap().name, "sample.exe");
    assert_eq!(state.selected_method.as_ref().unwrap().name, ".rdata");
}

#[test]
fn toggles_flip_one_flag() {
    let mut state = AppState::new();
    load(&mut state, Ok(sample_tree()));
    update(&mut state, Message::ToggleNamespace(1));
    {
        let tree = state.tree_data.as_ref().unwrap();
        assert!(tree.namespaces[0].is_expanded);
        assert!(!tree.namespaces[1].is_expanded);
    }
    update(&mut state, Message::ToggleNamespace(1));
    assert!(state.tree_data.as_ref().unwrap().namespaces[1].is_expanded);
    update(&mut state, Message::ToggleClass(0, 1));
    {
        let tree = state.tree_data.as_ref().unwrap();
        assert!(!tree.namespaces[0].classes[0].is_expanded);
        assert!(tree.namespaces[0].classes[1].is_expanded);
        assert!(!tree.namespaces[1].classes[0].is_expanded);
    }
    update(&mut state, Message::ToggleClass(0, 1));
    assert!(!state.tree_data.as_ref().unwrap().namespaces[0].classes[1].is_expanded);
}

#[test]
fn indices_that_name_nothing_change_nothing() {
    let mut state = AppState::new();
    assert!(matches!(update(&mut state, Message::ToggleNamespace(0)), Action::Idle));
    assert!(matches!(update(&mut state, Message::ToggleClass(0, 0)), Action::Idle));
    assert!(matches!(update(&mut state, Message::SelectMethod(0, 0, 0)), Action::Idle));
    assert!(state.tree_data.is_none());
    assert!(state.selected_method.is_none());
    load(&mut state, Ok(sample_tree()));
    let before = format!("{:?}", state);
    update(&mut state, Message::ToggleNamespace(2));
    update(&mut state, Message::ToggleClass(2, 0));
    update(&mut state, Message::ToggleClass(1, 1));
    update(&mut state, Message::SelectMethod(0, 1, 0));
    update(&mut state, Message::SelectMethod(0, 2, 0));
    update(&mut state, Message::SelectMethod(5, 0, 0));
    update(&mut state, Message::SelectMethod(usize::MAX, usize::MAX, usize::MAX));
    assert_eq!(format!("{:?}", state), before);
}

#[test]
fn selecting_a_leaf_shares_its_text() {
    let mut state = AppState::new();
    load(&mut state, Ok(sample_tree()));
    update(&mut state, Message::SelectMethod(0, 0, 1));
    let selected = state.selected_method.as_ref().unwrap();
    assert_eq!(selected.name, "Ordinal5");
    assert_eq!(*selected.il_code, "// Imported from KERNEL32.DLL\nextern Ordinal5");
    let leaf = &state.tree_data.as_ref().unwrap().namespaces[0].classes[0].methods[1];
    assert!(Arc::ptr_eq(&selected.il_code, &leaf.il_code));
}

#[test]
fn cloning_a_leaf_keeps_label_and_text() {
    let leaf = MethodData { name: "n".to_string(), il_code: Arc::new("code".to_string()) };
    let copy = leaf.clone();
    assert_eq!(copy.name, "n");
    assert_eq!(*copy.il_code, "code");
    assert!(Arc::ptr_eq(&copy.il_code, &leaf.il_code));
}

#[test]
fn rows_of_a_fresh_tree() {
    let rows = visible_rows(&sample_tree());
    assert_eq!(
        labels(&rows),
        vec![
            "sample.exe",
            "\u{25BC} Imports",
            "\u{25B6} KERNEL32.DLL",
            "\u{25B6} empty.dll",
            "\u{25BC} Metadata",
            "\u{25B6} Sections",
        ]
    );
    let indents: Vec<u16> = rows.iter().map(|r| r.indent).collect();
    assert_eq!(indents, vec![0, 0, 20, 20, 0, 20]);
    assert!(rows[0].on_press.is_none());
    assert!(matches!(rows[1].on_press, Some(Message::ToggleNamespace(0))));
    assert!(matches!(rows[2].on_press, Some(Message::ToggleClass(0, 0))));
    assert!(matches!(rows[3].on_press, Some(Message::ToggleClass(0, 1))));
    assert!(matches!(rows[4].on_press, Some(Message::ToggleNamespace(1))));
    assert!(matches!(rows[5].on_press, Some(Message::ToggleClass(1, 0))));
}

#[test]
fn rows_follow_the_flags() {
    let mut tree = sample_tree();
    tree.namespaces[0].classes[0].is_expanded = true;
    tree.namespaces[1].classes[0].is_expanded = true;
    let rows = visible_rows(&tree);
    assert_eq!(
        labels(&rows),
        vec![
            "sample.exe",
            "\u{25BC} Imports",
            "\u{25BC} KERNEL32.DLL",
            "ExitProcess",
            "Ordinal5",
            "\u{25B6} empty.dll",
            "\u{25BC} Metadata",
            "\u{25BC} Sections",
            ".text",
            ".rdata",
        ]
    );
    assert_eq!(rows[3].indent, 40);
    assert!(matches!(rows[3].on_press, Some(Message::SelectMethod(0, 0, 0))));
    assert!(matches!(rows[4].on_press, Some(Message::SelectMethod(0, 0, 1))));
    assert!(matches!(rows[8].on_press, Some(Message::SelectMethod(1, 0, 0))));
    assert!(matches!(rows[9].on_press, Some(Message::SelectMethod(1, 0, 1))));
    // a closed group hides open subgroups
    tree.namespaces[0].is_expanded = false;
    assert_eq!(
        labels(&visible_rows(&tree)),
        vec![
            "sample.exe",
            "\u{25B6} Imports",
            "\u{25BC} Metadata",
            "\u{25BC} Sections",
            ".text",
            ".rdata",
        ]
    );
}

#[test]
fn rows_of_an_empty_tree() {
    let tree = AssemblyData { name: "nothing".to_string(), namespaces: vec![] };
    assert_eq!(labels(&visible_rows(&tree)), vec!["nothing"]);
    let tree = AssemblyData {
        name: "".to_string(),
        namespaces: vec![NamespaceData { name: "ns".to_string(), classes: vec![], is_expanded: true }],
    };
    assert_eq!(labels(&visible_rows(&tree)), vec!["", "\u{25BC} ns"]);
}

#[test]
fn pressing_each_row_of_the_sidebar_drives_the_view() {
    let mut state = AppState::new();
    load(&mut state, Ok(sample_tree()));
    // open KERNEL32.DLL through the event of its row
    let rows = visible_rows(state.tree_data.as_ref().unwrap());
    let press = rows.into_iter().nth(2).unwrap().on_press.unwrap();
    update(&mut state, press);
    let rows = visible_rows(state.tree_data.as_ref().unwrap());
    assert_eq!(rows[3].label, "ExitProcess");
    let press = rows.into_iter().nth(3).unwrap().on_press.unwrap();
    update(&mut state, press);
    assert_eq!(state.selected_method.as_ref().unwrap().name, "ExitProcess");
}
