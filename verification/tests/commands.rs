use extension_gui::commands::{action_namespace, CommandPaletteFilter, DynamicCommand, DynamicCommandRegistry};

fn command(name: &str, ext: &str, id: &str) -> DynamicCommand {
    DynamicCommand { name: name.to_string(), extension_id: ext.to_string(), command_id: id.to_string() }
}

#[test]
fn registry_unregisters_one_extension() {
    let mut r = DynamicCommandRegistry::new();
    r.register(command("a: one", "a", "one"));
    r.register(command("b: two", "b", "two"));
    r.register(command("a: three", "a", "three"));
    r.unregister_extension("a");
    let left = r.commands();
    assert_eq!(left.len(), 1);
    assert_eq!(left[0].extension_id, "b");
    assert_eq!(left[0].command_id, "two");
    r.unregister_extension("a");
    assert_eq!(r.commands().len(), 1);
}

#[test]
fn namespace_is_before_double_colon() {
    let ns: String = action_namespace("editor::MoveUp").into_iter().collect();
    assert_eq!(ns, "editor");
    let ns: String = action_namespace("plain").into_iter().collect();
    assert_eq!(ns, "plain");
}

#[test]
fn filter_hides_namespaces_and_types() {
    let mut f = CommandPaletteFilter::new();
    assert!(!f.is_hidden("editor::MoveUp", 1));
    f.hide_namespace("editor");
    assert!(f.is_hidden("editor::MoveUp", 1));
    assert!(!f.is_hidden("pane::Close", 2));
    f.show_action_types(&[1]);
    assert!(!f.is_hidden("editor::MoveUp", 1));
    f.hide_action_types(&[1, 2]);
    assert!(f.is_hidden("editor::MoveUp", 1));
    assert!(f.is_hidden("pane::Close", 2));
    f.show_namespace("editor");
    f.show_action_types(&[1, 2]);
    assert!(!f.is_hidden("editor::MoveUp", 1));
    assert!(!f.is_hidden("pane::Close", 2));
}

#[test]
fn registry_holds_what_was_registered_in_order() {
    let mut r = DynamicCommandRegistry::new();
    assert!(r.commands().is_empty());
    for n in 0..5 {
        r.register(command(&format!("x: {}", n), "x", &n.to_string()));
    }
    let ids: Vec<&str> = r.commands().iter().map(|c| c.command_id.as_str()).collect();
    assert_eq!(ids, vec!["0", "1", "2", "3", "4"]);
    assert_eq!(r.commands().len(), 5);
}
