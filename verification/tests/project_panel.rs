use extension_gui::elements::UiNode;
use extension_gui::events::HandlerRegistry;
use extension_gui::project_panel::{
    file_icon, list_directory, list_entries, open_file_params, should_skip, visible_entries, EntryKind,
    FileEntry, ProjectPanel, ProjectStep,
};

#[test]
fn skipped_names() {
    assert!(should_skip(".git"));
    assert!(should_skip("target"));
    assert!(should_skip("node_modules"));
    assert!(!should_skip("src"));
    assert!(!should_skip("targets"));
}

#[test]
fn icons() {
    assert_eq!(file_icon(&EntryKind::Directory, "x.rs"), "📁");
    assert_eq!(file_icon(&EntryKind::File, "x.rs"), "🦀");
    assert_eq!(file_icon(&EntryKind::File, "Cargo.toml"), "⚙️");
    assert_eq!(file_icon(&EntryKind::File, "README.md"), "📝");
    assert_eq!(file_icon(&EntryKind::File, "a.json"), "📋");
    assert_eq!(file_icon(&EntryKind::File, "a.txt"), "📄");
}

#[test]
fn listing_sorts_directories_first_then_by_path() {
    let dirs = "/p/src\n/p/src/ui\n/p/.hidden\n\n/p/docs\n";
    let files = "  /p/src/lib.rs  \n/p/Cargo.toml\n/p/src/ui/a.rs\n/p/target\n";
    let e = list_entries("/p", dirs, files);
    let paths: Vec<&str> = e.iter().map(|x| x.path.as_str()).collect();
    assert_eq!(paths, vec!["/p/docs", "/p/src", "/p/src/ui", "/p/Cargo.toml", "/p/src/lib.rs", "/p/src/ui/a.rs"]);
    let depths: Vec<usize> = e.iter().map(|x| x.depth).collect();
    assert_eq!(depths, vec![0, 0, 1, 0, 1, 2]);
    assert_eq!(e[2].name, "ui");
    assert_eq!(e[2].kind, EntryKind::Directory);
    assert_eq!(e[5].kind, EntryKind::File);
}

#[test]
fn listing_reports_errors() {
    assert_eq!(list_directory("/p", Err("bad".to_string()), Ok(String::new())).err(), Some("bad".to_string()));
    assert_eq!(list_directory("/p", Ok(String::new()), Err("worse".to_string())).err(), Some("worse".to_string()));
    assert!(list_directory("/p", Ok(String::new()), Ok(String::new())).unwrap().is_empty());
}

#[test]
fn open_file_parameters_are_escaped() {
    assert_eq!(open_file_params("/a/b.rs"), "{\"path\":\"/a/b.rs\"}");
    assert_eq!(open_file_params("a\"b\\c"), "{\"path\":\"a\\\"b\\\\c\"}");
}

fn entry(path: &str, kind: EntryKind, depth: usize) -> FileEntry {
    FileEntry { name: path.rsplit('/').next().unwrap().to_string(), path: path.to_string(), kind, depth }
}

fn panel() -> ProjectPanel {
    let mut p = ProjectPanel::new();
    assert_eq!(p.on_pub_sub_event("zed.project-root-changed", "/p".to_string()).as_deref(), Some("/p"));
    p.apply_listing(Ok(vec![
        entry("/p/src", EntryKind::Directory, 0),
        entry("/p/src/lib.rs", EntryKind::File, 1),
        entry("/p/Cargo.toml", EntryKind::File, 0),
    ]));
    p
}

#[test]
fn clicks_toggle_directories_and_open_files() {
    let mut p = panel();
    assert!(!p.loading);
    assert!(matches!(p.gui_on_event("entry-0"), ProjectStep::Done));
    assert_eq!(p.collapsed_dirs, vec!["/p/src"]);
    assert_eq!(visible_entries(&p.entries, &p.collapsed_dirs), vec![(0, true), (2, false)]);
    assert!(matches!(p.gui_on_event("entry-0"), ProjectStep::Done));
    assert!(p.collapsed_dirs.is_empty());
    match p.gui_on_event("entry-1") {
        ProjectStep::OpenFile(params) => assert_eq!(params, "{\"path\":\"/p/src/lib.rs\"}"),
        _ => panic!("expected an open request"),
    }
    assert!(matches!(p.gui_on_event("entry-7"), ProjectStep::Done));
    assert!(matches!(p.gui_on_event("refresh"), ProjectStep::List(r) if r == "/p"));
    assert!(p.loading);
}

#[test]
fn refresh_without_root_is_an_error() {
    let mut p = ProjectPanel::new();
    assert!(matches!(p.gui_on_event("refresh"), ProjectStep::Done));
    assert_eq!(p.error.as_deref(), Some("No project root"));
    assert!(p.on_pub_sub_event("zed.project-root-changed", String::new()).is_none());
    assert_eq!(p.error.as_deref(), Some("No project root found"));
    p.on_pub_sub_event("zed.active-file-changed", "/p/a".to_string());
    assert_eq!(p.active_file.as_deref(), Some("/p/a"));
}

fn texts(nodes: &[UiNode]) -> Vec<String> {
    nodes.iter().filter_map(|n| match n { UiNode::Text(t) => Some(t.content.clone()), _ => None }).collect()
}

#[test]
fn renders_the_tree() {
    let mut p = panel();
    p.on_pub_sub_event("zed.active-file-changed", "/p/src/lib.rs".to_string());
    let mut handlers: HandlerRegistry<()> = HandlerRegistry::new();
    let tree = p.gui_render(&mut handlers);
    assert_eq!(texts(&tree.nodes), vec![
        "📦", "p", "↺", "▼", "📁", "src", "🦀", "lib.rs", "●", "⚙️", "Cargo.toml",
    ]);
    assert_eq!(handlers.len(), 4);
    let mut loading = ProjectPanel::new();
    let tree = loading.gui_render(&mut handlers);
    assert_eq!(texts(&tree.nodes), vec!["Loading..."]);
    loading.apply_listing(Err("find failed".to_string()));
    let tree = loading.gui_render(&mut handlers);
    assert_eq!(texts(&tree.nodes), vec!["Error: find failed", "Retry"]);
}
