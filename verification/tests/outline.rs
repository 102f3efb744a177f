use extension_gui::events::HandlerRegistry;
use extension_gui::elements::UiNode;
use extension_gui::outline::{classify_line, indent_of, lang_label, symbols_of, OutlinePanel, OutlineState, SymbolKind};

fn classify(line: &str) -> Option<(SymbolKind, String)> {
    classify_line(line)
}

#[test]
fn classifies_rust_declarations() {
    assert_eq!(classify("pub fn render(&self) {"), Some((SymbolKind::Function, "render".to_string())));
    assert_eq!(classify("    pub(crate) fn helper<T>(x: T)"), Some((SymbolKind::Function, "helper".to_string())));
    assert_eq!(classify("async fn run()"), Some((SymbolKind::Function, "run".to_string())));
    assert_eq!(classify("pub struct Panel {"), Some((SymbolKind::Struct, "Panel".to_string())));
    assert_eq!(classify("enum State {"), Some((SymbolKind::Enum, "State".to_string())));
    assert_eq!(classify("pub trait Extension {"), Some((SymbolKind::Trait, "Extension".to_string())));
    assert_eq!(classify("type Alias = u32;"), Some((SymbolKind::Type, "Alias".to_string())));
    assert_eq!(classify("impl Extension for GitPanel {"), Some((SymbolKind::Impl, "Extension for GitPanel".to_string())));
    assert_eq!(classify("impl<T> Foo<T> {"), None);
    assert_eq!(classify("mod tests;"), Some((SymbolKind::Module, "tests".to_string())));
    assert_eq!(classify("pub const MAX: u32 = 3;"), Some((SymbolKind::Constant, "MAX".to_string())));
}

#[test]
fn classifies_other_languages() {
    assert_eq!(classify("def main(argv):"), Some((SymbolKind::Function, "main".to_string())));
    assert_eq!(classify("class Widget(Base):"), Some((SymbolKind::Class, "Widget".to_string())));
    assert_eq!(classify("export async function load() {"), Some((SymbolKind::Function, "load".to_string())));
    assert_eq!(classify("func main() {"), Some((SymbolKind::Function, "main".to_string())));
    assert_eq!(classify("let x = 1;"), None);
    assert_eq!(classify("fn  spaced()"), None);
    assert_eq!(classify(""), None);
}

#[test]
fn indentation_levels() {
    assert_eq!(indent_of("fn a()"), 0);
    assert_eq!(indent_of("    fn a()"), 1);
    assert_eq!(indent_of("\t\tfn a()"), 2);
    assert_eq!(indent_of("   x"), 0);
    assert_eq!(indent_of("  \t  x"), 2);
}

#[test]
fn language_labels() {
    assert_eq!(lang_label("src/lib.rs"), "Rust");
    assert_eq!(lang_label("a.py"), "Python");
    assert_eq!(lang_label("a.tsx"), "TypeScript");
    assert_eq!(lang_label("a.jsx"), "JavaScript");
    assert_eq!(lang_label("main.go"), "Go");
    assert_eq!(lang_label("README"), "File");
}

#[test]
fn symbols_of_a_file() {
    let src = "use x;\n\npub struct A {\n    fn inner() {}\n}\nfn main() {}\n";
    let symbols = symbols_of(src);
    assert_eq!(symbols.len(), 3);
    assert_eq!(symbols[0].name, "A");
    assert_eq!(symbols[0].line, 3);
    assert_eq!(symbols[1].name, "inner");
    assert_eq!(symbols[1].indent, 1);
    assert_eq!(symbols[1].line, 4);
    assert_eq!(symbols[2].kind, SymbolKind::Function);
    assert_eq!(symbols[2].line, 6);
}

#[test]
fn kind_labels() {
    assert_eq!(SymbolKind::Function.label(), "fn");
    assert_eq!(SymbolKind::Other.label(), "??");
}

#[test]
fn reload_flow() {
    let mut p = OutlinePanel::new();
    assert!(matches!(p.state, OutlineState::NoFile));
    let to_read = p.on_pub_sub_event("zed.active-file-changed", "/p/src/lib.rs".to_string());
    assert_eq!(to_read.as_deref(), Some("/p/src/lib.rs"));
    p.finish_reload(Ok("fn a() {}\n".to_string()));
    assert!(matches!(p.state, OutlineState::Ready));
    assert_eq!(p.symbols.len(), 1);
    assert_eq!(p.gui_on_event("refresh").as_deref(), Some("/p/src/lib.rs"));
    p.finish_reload(Err("missing".to_string()));
    assert!(matches!(&p.state, OutlineState::Error(e) if e == "missing"));
    assert!(p.symbols.is_empty());
    assert!(p.on_pub_sub_event("zed.active-file-changed", String::new()).is_none());
    assert!(matches!(p.state, OutlineState::NoFile));
    assert!(p.on_pub_sub_event("other", "x".to_string()).is_none());
    assert!(p.run_extension_command("open-outline").is_ok());
    assert_eq!(p.run_extension_command("x"), Err("unknown command: x".to_string()));
}

fn texts(nodes: &[UiNode]) -> Vec<String> {
    nodes.iter().filter_map(|n| match n { UiNode::Text(t) => Some(t.content.clone()), _ => None }).collect()
}

#[test]
fn renders_symbols() {
    let mut p = OutlinePanel::new();
    p.on_pub_sub_event("zed.active-file-changed", "/p/src/lib.rs".to_string());
    p.finish_reload(Ok("fn a() {}\n    fn b() {}\n".to_string()));
    let mut handlers: HandlerRegistry<()> = HandlerRegistry::new();
    let tree = p.gui_render(&mut handlers);
    let t = texts(&tree.nodes);
    assert_eq!(t, vec!["◈", "lib.rs", "Rust", "↺", "2 symbols", "fn", "a", "1", "fn", "b", "2"]);
    assert_eq!(handlers.len(), 3);
    assert_eq!(handlers.dispatch_event("sym-1", &extension_gui::events::UiEvent::HoverStart).len(), 0);
}

#[test]
fn renders_states() {
    let mut handlers: HandlerRegistry<()> = HandlerRegistry::new();
    let p = OutlinePanel::new();
    let tree = p.gui_render(&mut handlers);
    assert_eq!(texts(&tree.nodes), vec!["No file open", "Open a file in the editor to see its outline"]);
    let mut p = OutlinePanel::new();
    p.on_pub_sub_event("zed.active-file-changed", "/x.py".to_string());
    p.finish_reload(Ok(String::new()));
    let tree = p.gui_render(&mut handlers);
    assert_eq!(texts(&tree.nodes), vec!["◈", "x.py", "Python", "↺", "0 symbols", "No symbols found"]);
    p.finish_reload(Err("boom".to_string()));
    let tree = p.gui_render(&mut handlers);
    assert_eq!(texts(&tree.nodes), vec!["Error: boom", "Retry"]);
}

#[test]
fn classified_names_are_trimmed_and_non_empty() {
    assert!(classify_line("let x = compute();").is_none());
    for line in ["fn main() {", "  pub struct Panel {", "def run(self):", "\tclass Foo:", "export function go() {", "type Id = u64;"] {
        if let Some((_, n)) = classify_line(line) {
            assert!(!n.is_empty());
            assert_eq!(n, n.trim());
        }
    }
}
