use extension_gui::elements::UiTree;

use extension_gui::flatten::render_tree;
use extension_gui::panel::{
    collect_query_responses, command_reply, focus_handle_plan, handler_response, host_query, host_query_response,
    initial_context_events, open_or_focus, panel_state, restore_progress, should_restore, slash_command_reply,
    text_field_plan, tree_changed, HostQuery, PanelOpen, QueryResponse, RestoreProgress,
};
use extension_gui::ui::{div, Input, Label};

fn tabs() -> Vec<Option<String>> {
    vec![Some("git".to_string()), None, Some("outline".to_string())]
}

#[test]
fn persisted_layout() {
    let s = panel_state(&tabs(), Some("outline"));
    assert_eq!(s.open_extensions, vec!["git", "outline"]);
    assert_eq!(s.active_index, Some(1));
    assert_eq!(panel_state(&tabs(), Some("x")).active_index, None);
    assert!(should_restore(&Some(s), "git"));
    assert!(!should_restore(&None, "git"));
}

#[test]
fn open_focuses_existing_tab() {
    assert!(matches!(open_or_focus(&tabs(), "outline"), PanelOpen::Focus(2)));
    assert!(matches!(open_or_focus(&tabs(), "project"), PanelOpen::AddTab));
}

#[test]
fn restore_completes_when_all_tabs_are_back() {
    let s = panel_state(&tabs(), Some("git"));
    assert!(matches!(restore_progress(&s, 1), RestoreProgress::Waiting));
    assert!(matches!(restore_progress(&s, 2), RestoreProgress::Complete(Some(0))));
}

#[test]
fn repaint_decision() {
    let a = render_tree(div());
    let b = render_tree(div().child(div()));
    assert!(tree_changed(&None, &a));
    assert!(!tree_changed(&Some(render_tree(div())), &a));
    assert!(tree_changed(&Some(a), &b));
    let c = render_tree(div().child(div().p_2()));
    assert!(tree_changed(&Some(render_tree(div().child(div()))), &c));
    let d = render_tree(div().child(Label::new("x".to_string())));
    let e = render_tree(div().child(Label::new("y".to_string())));
    assert!(tree_changed(&Some(d), &e));
    assert!(!tree_changed(&Some(render_tree(div().child(div().p_2()))), &c));
}

#[test]
fn queries() {
    assert_eq!(host_query("zed.project-root"), Some(HostQuery::ProjectRoot));
    assert_eq!(host_query("zed.active-file"), Some(HostQuery::ActiveFile));
    assert_eq!(host_query("git.status"), None);
    let h = host_query_response("/p/a \"b\"");
    assert_eq!(h.source, "zed");
    assert_eq!(h.data, "\"/p/a \\\"b\\\"\"");
    assert!(handler_response("ext", Some(Err("no".to_string()))).is_none());
    assert!(handler_response("ext", None).is_none());
    let r = handler_response("ext", Some(Ok("1".to_string()))).unwrap();
    assert_eq!(r.source, "ext");
    let all = collect_query_responses(
        Some(h),
        vec![Some(r), None, Some(QueryResponse { source: "b".to_string(), data: "2".to_string() })],
        false,
    );
    let sources: Vec<&str> = all.iter().map(|q| q.source.as_str()).collect();
    assert_eq!(sources, vec!["zed", "ext", "b"]);
    let none = collect_query_responses(None, vec![Some(QueryResponse { source: "b".to_string(), data: "2".to_string() })], true);
    assert!(none.is_empty());
}

#[test]
fn context_and_command_replies() {
    let events = initial_context_events("/p".to_string(), "/p/a.rs".to_string(), &vec!["/p/a.rs".to_string(), "/p/b.rs".to_string()]);
    assert_eq!(events.len(), 3);
    assert_eq!(events[0].topic, "zed.project-root-changed");
    assert_eq!(events[1].data, "/p/a.rs");
    assert_eq!(events[2].topic, "zed.open-files-changed");
    assert_eq!(events[2].data, "[\"/p/a.rs\",\"/p/b.rs\"]");
    assert_eq!(events[2].source, "zed");
    let reply = slash_command_reply("fix", &vec!["a".to_string()]).unwrap();
    let value: serde_json::Value = serde_json::from_str(&reply).unwrap();
    assert_eq!(value["command"], "fix");
    assert_eq!(value["args"][0], "a");
    assert_eq!(command_reply("editor::Save", None), Ok("null".to_string()));
    assert_eq!(command_reply("x", Some("no such action")), Err("Unknown action 'x': no such action".to_string()));
}

#[test]
fn input_fields_and_focus_handles() {
    let root = div()
        .child(Input::new("a".to_string(), String::new()).placeholder("A".to_string()))
        .child(Input::new("b".to_string(), String::new()))
        .child(Input::new("a".to_string(), String::new()))
        .child(div().focusable(3))
        .child(div().focusable(4))
        .child(div().focusable(3));
    let tree: UiTree = render_tree(root);
    let (kept, created) = text_field_plan(&vec!["b".to_string(), "gone".to_string()], &tree);
    assert_eq!(kept, vec!["b"]);
    assert_eq!(created, vec![("a".to_string(), "A".to_string())]);
    assert_eq!(focus_handle_plan(&vec![4], &tree), vec![3]);


}

#[test]
fn query_deliveries_number_the_handlers() {
    let d = extension_gui::panel::query_deliveries("git.status", "outline", "{}", 3);
    assert_eq!(d.len(), 3);
    for (i, q) in d.iter().enumerate() {
        assert_eq!(q.query_id, i as u64);
        assert_eq!(q.topic, "git.status");
        assert_eq!(q.source, "outline");
        assert_eq!(q.data, "{}");
    }
    assert!(extension_gui::panel::query_deliveries("t", "s", "d", 0).is_empty());
}

#[test]
fn json_texts_are_exact() {
    assert_eq!(host_query_response("a\tb\u{1}\\\u{7f}é").data, "\"a\\tb\\u0001\\\\\u{7f}é\"");
    assert_eq!(slash_command_reply("fix", &vec!["a".to_string(), "b\n".to_string()]).unwrap(), "{\"args\":[\"a\",\"b\\n\"],\"command\":\"fix\"}");
    let events = initial_context_events(String::new(), String::new(), &vec![]);
    assert_eq!(events[2].data, "[]");
}
