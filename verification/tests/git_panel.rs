use extension_gui::elements::UiNode;
use extension_gui::events::{HandlerRegistry, UiEvent};
use extension_gui::git_panel::{
    char_to_status, git_args, needs_history, parse_porcelain, refresh_status, route_query, FileEntry,
    FileStatus, GitOp, GitPanel, GitQuery, GitState, GitStep,
};

fn entry(path: &str, status: FileStatus) -> FileEntry {
    FileEntry { path: path.to_string(), status }
}

fn views(v: &[FileEntry]) -> Vec<(String, FileStatus)> {
    v.iter().map(|e| (e.path.clone(), e.status)).collect()
}

#[test]
fn status_letters() {
    assert_eq!(char_to_status('A'), FileStatus::Added);
    assert_eq!(char_to_status('D'), FileStatus::Deleted);
    assert_eq!(char_to_status('R'), FileStatus::Renamed);
    assert_eq!(char_to_status('C'), FileStatus::Renamed);
    assert_eq!(char_to_status('M'), FileStatus::Modified);
    assert_eq!(char_to_status('U'), FileStatus::Modified);
    assert_eq!(FileStatus::Deleted.label(), "D");
}

#[test]
fn porcelain_lines() {
    let (staged, unstaged) = parse_porcelain("M  a.rs\n M b.rs\nMM c.rs\n?? new.txt\nR  old.rs -> new.rs\nx\nA  é.rs");
    assert_eq!(views(&staged), vec![
        ("a.rs".to_string(), FileStatus::Modified),
        ("c.rs".to_string(), FileStatus::Modified),
        ("new.rs".to_string(), FileStatus::Renamed),
        ("é.rs".to_string(), FileStatus::Added),
    ]);
    assert_eq!(views(&unstaged), vec![
        ("b.rs".to_string(), FileStatus::Modified),
        ("c.rs".to_string(), FileStatus::Modified),
        ("new.txt".to_string(), FileStatus::Added),
    ]);
}

#[test]
fn porcelain_reads_bytes() {
    // A first character of two bytes: the status letters are its bytes.
    let (staged, unstaged) = parse_porcelain("é x");
    assert_eq!(staged.len(), 1);
    assert_eq!(staged[0].path, "x");
    assert_eq!(staged[0].status, FileStatus::Modified);
    assert_eq!(unstaged.len(), 1);
}

#[test]
fn refresh_falls_back_to_head() {
    let r = refresh_status(Err("no branch".to_string()), Ok("A  x".to_string())).unwrap();
    assert_eq!(r.0, "HEAD");
    assert_eq!(views(&r.1), vec![("x".to_string(), FileStatus::Added)]);
    let r = refresh_status(Ok("main".to_string()), Ok(String::new())).unwrap();
    assert_eq!(r.0, "main");
    assert!(r.1.is_empty() && r.2.is_empty());
    assert_eq!(refresh_status(Ok("main".to_string()), Err("fatal".to_string())).err(), Some("fatal".to_string()));
}

#[test]
fn git_command_arguments() {
    assert_eq!(git_args(&GitOp::StageAll, false), vec!["add", "-A"]);
    assert_eq!(git_args(&GitOp::UnstageAll, true), vec!["restore", "--staged", "."]);
    assert_eq!(git_args(&GitOp::UnstageAll, false), vec!["rm", "--cached", "-r", "--", "."]);
    assert_eq!(git_args(&GitOp::Commit("m".to_string()), false), vec!["commit", "-m", "m"]);
    assert_eq!(git_args(&GitOp::StageFile("p".to_string()), false), vec!["add", "--", "p"]);
    assert_eq!(git_args(&GitOp::UnstageFile("p".to_string()), true), vec!["restore", "--staged", "--", "p"]);
    assert_eq!(git_args(&GitOp::UnstageFile("p".to_string()), false), vec!["rm", "--cached", "--", "p"]);
    assert!(needs_history(&GitOp::UnstageAll));
    assert!(!needs_history(&GitOp::StageAll));
}

fn ready_panel() -> GitPanel {
    let mut p = GitPanel::new();
    let root = p.on_pub_sub_event("zed.project-root-changed", "/repo".to_string());
    assert_eq!(root.as_deref(), Some("/repo"));
    p.apply_refresh(Ok((
        "main".to_string(),
        vec![entry("s.rs", FileStatus::Added)],
        vec![entry("u0.rs", FileStatus::Modified), entry("u1.rs", FileStatus::Deleted)],
    )));
    p
}

#[test]
fn pub_sub_events() {
    let mut p = GitPanel::new();
    assert!(matches!(p.state, GitState::Loading));
    assert!(p.on_pub_sub_event("zed.project-root-changed", String::new()).is_none());
    assert!(matches!(p.state, GitState::NoRepo));
    assert!(p.project_root.is_none());
    p.on_pub_sub_event("zed.open-files-changed", "[\"/a/b.rs\",\"c\"]".to_string());
    assert_eq!(p.open_files, vec!["/a/b.rs", "c"]);
    p.on_pub_sub_event("zed.open-files-changed", "not json".to_string());
    assert_eq!(p.open_files, vec!["/a/b.rs", "c"]);
}

#[test]
fn clicks_on_rows_pick_their_files() {
    let mut p = ready_panel();
    match p.gui_on_event("stage-file-1", &UiEvent::HoverStart) {
        GitStep::Run(root, GitOp::StageFile(path)) => {
            assert_eq!(root, "/repo");
            assert_eq!(path, "u1.rs");
        },
        _ => panic!("expected a stage command"),
    }
    match p.gui_on_event("unstage-file-0", &UiEvent::HoverStart) {
        GitStep::Run(_, GitOp::UnstageFile(path)) => assert_eq!(path, "s.rs"),
        _ => panic!("expected an unstage command"),
    }
    assert!(matches!(p.gui_on_event("stage-file-2", &UiEvent::HoverStart), GitStep::Done));
    assert!(matches!(p.gui_on_event("stage-file-x", &UiEvent::HoverStart), GitStep::Done));
    assert!(matches!(p.gui_on_event("refresh", &UiEvent::HoverStart), GitStep::Refresh(_)));
    assert!(matches!(p.gui_on_event("stage-all", &UiEvent::HoverStart), GitStep::Run(_, GitOp::StageAll)));
    assert!(matches!(p.gui_on_event("nothing", &UiEvent::HoverStart), GitStep::Done));
}

#[test]
fn commit_flow() {
    let mut p = ready_panel();
    assert!(matches!(p.gui_on_event("commit", &UiEvent::HoverStart), GitStep::Refresh(_)));
    p.gui_on_event("commit-input", &UiEvent::InputChanged("fix: x".to_string()));
    assert_eq!(p.commit_message, "fix: x");
    let op = match p.gui_on_event("commit", &UiEvent::HoverStart) {
        GitStep::Run(_, op) => op,
        _ => panic!("expected a commit"),
    };
    assert!(matches!(&op, GitOp::Commit(m) if m == "fix: x"));
    assert!(!p.finish_git_op(&op, Err("hook failed".to_string())));
    assert!(matches!(&p.state, GitState::Error(e) if e == "hook failed"));
    assert_eq!(p.commit_message, "fix: x");
    assert!(p.finish_git_op(&op, Ok(String::new())));
    assert!(p.commit_message.is_empty());
}

#[test]
fn local_controls() {
    let mut p = GitPanel::new();
    p.gui_on_event("toggle-staged", &UiEvent::HoverStart);
    assert!(p.staged_collapsed);
    p.gui_on_event("toggle-unstaged", &UiEvent::HoverStart);
    assert!(p.unstaged_collapsed);
    p.gui_on_event("msg-feat", &UiEvent::HoverStart);
    assert_eq!(p.commit_message, "feat: add new feature");
    p.gui_on_event("msg-fix", &UiEvent::HoverStart);
    assert_eq!(p.commit_message, "fix: resolve issue");
    p.gui_on_event("msg-clear", &UiEvent::HoverStart);
    assert!(p.commit_message.is_empty());
    // Without a project root git buttons do nothing.
    assert!(matches!(p.gui_on_event("refresh", &UiEvent::HoverStart), GitStep::Done));
}

#[test]
fn status_query() {
    let p = GitPanel::new();
    let r = p.handle_git_status(None).unwrap();
    assert!(!r.has_repo);
    let p = ready_panel();
    let r = p.handle_git_status(Some(Ok(("dev".to_string(), vec![], vec![entry("a", FileStatus::Added)])))).unwrap();
    assert!(r.has_repo);
    assert_eq!(r.branch, "dev");
    assert_eq!(r.unstaged, 1);
    assert_eq!(route_query("git.status"), Ok(GitQuery::Status));
    assert_eq!(route_query("x"), Err("no handler for topic: x".to_string()));
    assert_eq!(p.run_extension_command("bad"), Err("unknown command: bad".to_string()));
}

fn texts(nodes: &[UiNode]) -> Vec<String> {
    nodes.iter().filter_map(|n| match n { UiNode::Text(t) => Some(t.content.clone()), _ => None }).collect()
}

#[test]
fn renders_ready_panel() {
    let mut p = ready_panel();
    p.on_pub_sub_event("zed.open-files-changed", "[\"/repo/src/x.rs\"]".to_string());
    p.gui_on_event("commit-input", &UiEvent::InputChanged("m".to_string()));
    let mut handlers: HandlerRegistry<()> = HandlerRegistry::new();
    let tree = p.gui_render(&mut handlers);
    assert_eq!(texts(&tree.nodes), vec![
        "v0.1.2", "⎇", "main", "3 changes", "↺", "Open Files", "1", "○", "x.rs",
        "▼", "Staged Changes", "1", "Unstage All", "A", "s.rs", "−",
        "▼", "Unstaged Changes", "2", "Stage All", "M", "u0.rs", "+", "D", "u1.rs", "+",
        "feat: …", "fix: …", "Clear", "Commit 1 file",
    ]);
    assert_eq!(handlers.len(), 3 + 1 + 4 + 4);
    let input = tree.nodes.iter().find_map(|n| match n { UiNode::Input(i) => Some(i.clone()), _ => None }).unwrap();
    assert_eq!(input.id, "commit-input");
    assert_eq!(input.value, "m");
    assert_eq!(input.placeholder.as_deref(), Some("Enter commit message..."));
}

#[test]
fn renders_collapsed_and_simple_states() {
    let mut p = ready_panel();
    p.gui_on_event("toggle-unstaged", &UiEvent::HoverStart);
    let mut handlers: HandlerRegistry<()> = HandlerRegistry::new();
    let tree = p.gui_render(&mut handlers);
    let t = texts(&tree.nodes);
    assert!(t.contains(&"▶".to_string()));
    assert!(!t.contains(&"u0.rs".to_string()));
    assert!(t.contains(&"Commit 1 file".to_string()));
    let tree = GitPanel::new().gui_render(&mut handlers);
    assert_eq!(texts(&tree.nodes), vec!["Loading…"]);
    assert_eq!(handlers.len(), 0);
}

#[test]
fn every_control_has_exactly_one_click_handler_after_each_render() {
    let mut p = ready_panel();
    p.gui_on_event("commit-input", &UiEvent::InputChanged("m".to_string()));
    let mut handlers: HandlerRegistry<()> = HandlerRegistry::new();
    let first = p.gui_render(&mut handlers).nodes;
    let n = handlers.len();
    let tree = p.gui_render(&mut handlers);
    assert_eq!(handlers.len(), n);
    assert_eq!(tree.nodes.len(), first.len());
    let click = UiEvent::Clicked(extension_gui::events::MouseEventData {
        x: 0, y: 0, button: 0, click_count: 1, shift: false, ctrl: false, alt: false, meta: false,
    });
    let mut clickable = 0;
    for node in &tree.nodes {
        if let UiNode::Div(d) = node {
            if let (Some(id), true) = (&d.id, d.events.on_click) {
                assert_eq!(handlers.dispatch_event(id, &click).len(), 1, "{}", id);
                clickable += 1;
            }
        }
    }
    assert_eq!(clickable, n);
}

#[test]
fn commit_button_is_inert_without_a_message() {
    let p = ready_panel();
    let mut handlers: HandlerRegistry<()> = HandlerRegistry::new();
    let tree = p.gui_render(&mut handlers);
    let button = tree.nodes.iter().find_map(|n| match n {
        UiNode::Div(d) if d.id.as_deref() == Some("commit") => Some(d.clone()),
        _ => None,
    }).unwrap();
    assert!(!button.events.on_click);
    assert_eq!(button.style.background, Some(extension_gui::elements::Background::Color(extension_gui::elements::Color::SurfaceBackground)));
    assert_eq!(button.children.len(), 1);
    assert!(!tree.nodes.iter().any(|n| matches!(n, UiNode::Div(d) if d.id.as_deref() == Some("msg-clear"))));
    assert!(handlers.dispatch_event("commit", &UiEvent::HoverStart).is_empty());
}
