//! The outline demo panel: finds the declarations of a source file by
//! their leading keywords and lists them with their kind and line.
use vstd::prelude::*;
use crate::elements::{Color, DefiniteLength, Length, UiTree, F32_0, F32_1, F32_3, F32_4, F32_6, F32_8};
use crate::events::{HandlerKind, HandlerRegistry};
use crate::flatten::{is_flat, render_tree, tree_well_formed};
use crate::strings::{after_last_slash, after_last_slash_chars};
use crate::text::{decimal, indexed_id, usize_to_string};
use crate::ui::{color_surface, div, h_flex, v_flex, AnyNode, Div, Label};
use crate::shape::{
    StyleV, children_of, lemma_div_shape_is_node, clickable, column_style, div_shape, no_style, plain, row_style, Shape, sv_bg, sv_bold, sv_color,
    sv_cursor_pointer, sv_flex_1, sv_gap_x, sv_gap_y, sv_italic, sv_items_center, sv_justify_between,
    sv_justify_center, sv_min_w, sv_muted, sv_overflow_x_hidden, sv_overflow_y_scroll, sv_px, sv_px_2,
    sv_px_3, sv_py, sv_py_2, sv_py_3, sv_rounded_sm, sv_single_line, sv_size_full, sv_text_sm, sv_text_xs,
    sv_w,
};
use crate::view::{label_shape, divs_shapes, error_view_shape, refresh_button_shape, rule_shape, spec_small_int_f32, clicks, div_controls, div_labels, div_size, error_view, inner_controls, refresh_button, rule, small_int_f32, with_div, with_divs, with_label, divs_controls, divs_labels, divs_size, Shown};
use crate::strings::{
    before_any, before_any_chars, ends_with, lines_of, split_lines, starts_with, starts_with_chars,
    str_ends_with, trim_chars, trimmed, skip_chars,
};
use crate::text::{chars_of, concat_str, string_from_chars, str_eq};
use crate::ui::{color_accent, color_muted, color_success, color_warning};

verus! {

/// The kind of a declaration.
#[derive(Clone, Copy, PartialEq, Eq, Structural, Debug)]
pub enum SymbolKind {
    Function,
    Struct,
    Enum,
    Impl,
    Trait,
    Module,
    Type,
    Constant,
    Class,
    Other,
}

/// The two-letter tag shown for each kind.
pub open spec fn spec_kind_label(k: SymbolKind) -> Seq<char> {
    match k {
        SymbolKind::Function => "fn"@,
        SymbolKind::Struct => "st"@,
        SymbolKind::Enum => "en"@,
        SymbolKind::Impl => "im"@,
        SymbolKind::Trait => "tr"@,
        SymbolKind::Module => "mo"@,
        SymbolKind::Type => "ty"@,
        SymbolKind::Constant => "co"@,
        SymbolKind::Class => "cl"@,
        SymbolKind::Other => "??"@,
    }
}

/// The color of each kind's tag.
pub open spec fn spec_kind_color(k: SymbolKind) -> Color {
    match k {
        SymbolKind::Function | SymbolKind::Module | SymbolKind::Type => Color::Accent,
        SymbolKind::Struct | SymbolKind::Enum | SymbolKind::Class => Color::StatusSuccess,
        SymbolKind::Impl | SymbolKind::Trait => Color::StatusWarning,
        SymbolKind::Constant | SymbolKind::Other => Color::TextMuted,
    }
}

impl SymbolKind {
    /// The two-letter tag of the kind.
    pub fn label(&self) -> (r: &'static str)
        ensures
            r@ == spec_kind_label(*self),
    {
        match self {
            SymbolKind::Function => "fn",
            SymbolKind::Struct => "st",
            SymbolKind::Enum => "en",
            SymbolKind::Impl => "im",
            SymbolKind::Trait => "tr",
            SymbolKind::Module => "mo",
            SymbolKind::Type => "ty",
            SymbolKind::Constant => "co",
            SymbolKind::Class => "cl",
            SymbolKind::Other => "??",
        }
    }

    /// The color of the kind's tag.
    pub fn color(&self) -> (r: Color)
        ensures
            r == spec_kind_color(*self),
    {
        match self {
            SymbolKind::Function => color_accent(),
            SymbolKind::Struct => color_success(),
            SymbolKind::Enum => color_success(),
            SymbolKind::Impl => color_warning(),
            SymbolKind::Trait => color_warning(),
            SymbolKind::Module => color_accent(),
            SymbolKind::Type => color_accent(),
            SymbolKind::Constant => color_muted(),
            SymbolKind::Class => color_success(),
            SymbolKind::Other => color_muted(),
        }
    }
}

/// The recognised declaration forms, in the order they are tried: a prefix
/// of the trimmed line, the kind of symbol it declares, and the characters
/// that end the symbol's name.
pub open spec fn symbol_rules() -> Seq<(Seq<char>, SymbolKind, Seq<char>)> {
    seq![
        ("pub(crate) fn "@, SymbolKind::Function, "(< {"@),
        ("pub fn "@, SymbolKind::Function, "(< {"@),
        ("async fn "@, SymbolKind::Function, "(< {"@),
        ("pub async fn "@, SymbolKind::Function, "(< {"@),
        ("fn "@, SymbolKind::Function, "(< {"@),
        ("pub(crate) struct "@, SymbolKind::Struct, "(< {"@),
        ("pub struct "@, SymbolKind::Struct, "(< {"@),
        ("struct "@, SymbolKind::Struct, "(< {"@),
        ("pub(crate) enum "@, SymbolKind::Enum, "(< {"@),
        ("pub enum "@, SymbolKind::Enum, "(< {"@),
        ("enum "@, SymbolKind::Enum, "(< {"@),
        ("pub(crate) trait "@, SymbolKind::Trait, "(< {"@),
        ("pub trait "@, SymbolKind::Trait, "(< {"@),
        ("trait "@, SymbolKind::Trait, "(< {"@),
        ("pub(crate) type "@, SymbolKind::Type, "(< ={"@),
        ("pub type "@, SymbolKind::Type, "(< ={"@),
        ("type "@, SymbolKind::Type, "(< ={"@),
        ("impl "@, SymbolKind::Impl, "{<"@),
        ("pub(crate) mod "@, SymbolKind::Module, " {;"@),
        ("pub mod "@, SymbolKind::Module, " {;"@),
        ("mod "@, SymbolKind::Module, " {;"@),
        ("pub const "@, SymbolKind::Constant, ": "@),
        ("pub(crate) const "@, SymbolKind::Constant, ": "@),
        ("const "@, SymbolKind::Constant, ": "@),
        ("def "@, SymbolKind::Function, "( "@),
        ("class "@, SymbolKind::Class, "(: {"@),
        ("export function "@, SymbolKind::Function, "( "@),
        ("export async function "@, SymbolKind::Function, "( "@),
        ("function "@, SymbolKind::Function, "( "@),
        ("async function "@, SymbolKind::Function, "( "@),
        ("func "@, SymbolKind::Function, "( "@),
        ("type "@, SymbolKind::Type, " "@),
    ]
}

/// The recognised declaration forms, as character vectors.
fn rule_table() -> (r: Vec<(Vec<char>, SymbolKind, Vec<char>)>)
    ensures
        r@.len() == symbol_rules().len(),
        forall|k: int| 0 <= k < r@.len() ==> (#[trigger] r@[k]).0@ == symbol_rules()[k].0 && r@[k].1 == symbol_rules()[k].1 && r@[k].2@ == symbol_rules()[k].2,
{
    let mut r: Vec<(Vec<char>, SymbolKind, Vec<char>)> = Vec::new();
    r.push((chars_of("pub(crate) fn "), SymbolKind::Function, chars_of("(< {")));
    r.push((chars_of("pub fn "), SymbolKind::Function, chars_of("(< {")));
    r.push((chars_of("async fn "), SymbolKind::Function, chars_of("(< {")));
    r.push((chars_of("pub async fn "), SymbolKind::Function, chars_of("(< {")));
    r.push((chars_of("fn "), SymbolKind::Function, chars_of("(< {")));
    r.push((chars_of("pub(crate) struct "), SymbolKind::Struct, chars_of("(< {")));
    r.push((chars_of("pub struct "), SymbolKind::Struct, chars_of("(< {")));
    r.push((chars_of("struct "), SymbolKind::Struct, chars_of("(< {")));
    r.push((chars_of("pub(crate) enum "), SymbolKind::Enum, chars_of("(< {")));
    r.push((chars_of("pub enum "), SymbolKind::Enum, chars_of("(< {")));
    r.push((chars_of("enum "), SymbolKind::Enum, chars_of("(< {")));
    r.push((chars_of("pub(crate) trait "), SymbolKind::Trait, chars_of("(< {")));
    r.push((chars_of("pub trait "), SymbolKind::Trait, chars_of("(< {")));
    r.push((chars_of("trait "), SymbolKind::Trait, chars_of("(< {")));
    r.push((chars_of("pub(crate) type "), SymbolKind::Type, chars_of("(< ={")));
    r.push((chars_of("pub type "), SymbolKind::Type, chars_of("(< ={")));
    r.push((chars_of("type "), SymbolKind::Type, chars_of("(< ={")));
    r.push((chars_of("impl "), SymbolKind::Impl, chars_of("{<")));
    r.push((chars_of("pub(crate) mod "), SymbolKind::Module, chars_of(" {;")));
    r.push((chars_of("pub mod "), SymbolKind::Module, chars_of(" {;")));
    r.push((chars_of("mod "), SymbolKind::Module, chars_of(" {;")));
    r.push((chars_of("pub const "), SymbolKind::Constant, chars_of(": ")));
    r.push((chars_of("pub(crate) const "), SymbolKind::Constant, chars_of(": ")));
    r.push((chars_of("const "), SymbolKind::Constant, chars_of(": ")));
    r.push((chars_of("def "), SymbolKind::Function, chars_of("( ")));
    r.push((chars_of("class "), SymbolKind::Class, chars_of("(: {")));
    r.push((chars_of("export function "), SymbolKind::Function, chars_of("( ")));
    r.push((chars_of("export async function "), SymbolKind::Function, chars_of("( ")));
    r.push((chars_of("function "), SymbolKind::Function, chars_of("( ")));
    r.push((chars_of("async function "), SymbolKind::Function, chars_of("( ")));
    r.push((chars_of("func "), SymbolKind::Function, chars_of("( ")));
    r.push((chars_of("type "), SymbolKind::Type, chars_of(" ")));
    assert(r@.len() == symbol_rules().len());
    r
}

/// The name a declaration form gives to the rest of a line after its
/// prefix: the text before the first terminating character, trimmed.
pub open spec fn name_after(rest: Seq<char>, stops: Seq<char>) -> Seq<char> {
    trimmed(before_any(rest, stops))
}

/// The first declaration form, from the `k`-th on, whose prefix begins the
/// trimmed line `t` and that gives a non-empty name.
pub open spec fn classify_from(t: Seq<char>, k: int) -> Option<(SymbolKind, Seq<char>)>
    decreases symbol_rules().len() - k,
{
    if k < 0 || k >= symbol_rules().len() {
        None
    } else {
        let (prefix, kind, stops) = symbol_rules()[k];
        if starts_with(t, prefix) && name_after(t.skip(prefix.len() as int), stops).len() > 0 {
            Some((kind, name_after(t.skip(prefix.len() as int), stops)))
        } else {
            classify_from(t, k + 1)
        }
    }
}

/// The declaration a source line starts, if any: its kind and name.
pub open spec fn spec_classify_line(line: Seq<char>) -> Option<(SymbolKind, Seq<char>)> {
    classify_from(trimmed(line), 0)
}

/// Recognises the declaration that a line of source code starts (Rust,
/// Python, JavaScript, TypeScript or Go), by the first matching form.
pub fn classify_line(line: &str) -> (r: Option<(SymbolKind, String)>)
    ensures
        spec_classify_line(line@) == (match r {
            Some((k, n)) => Some((k, n@)),
            None => None,
        }),
{
    let chars = chars_of(line);
    let t = trim_chars(chars.as_slice());
    let rules = rule_table();
    let mut k: usize = 0;
    while k < rules.len()
        invariant
            chars@ == line@,
            t@ == trimmed(line@),
            rules@.len() == symbol_rules().len(),
            forall|j: int| 0 <= j < rules@.len() ==> (#[trigger] rules@[j]).0@ == symbol_rules()[j].0 && rules@[j].1 == symbol_rules()[j].1 && rules@[j].2@ == symbol_rules()[j].2,
            k <= rules@.len(),
            classify_from(t@, 0) == classify_from(t@, k as int),
        decreases rules@.len() - k,
    {
        let (prefix, kind, stops) = &rules[k];
        assert(rules@[k as int].0@ == symbol_rules()[k as int].0);
        if starts_with_chars(t.as_slice(), prefix.as_slice()) {
            let rest = skip_chars(t.as_slice(), prefix.len());
            let head = before_any_chars(rest.as_slice(), stops.as_slice());
            let name = trim_chars(head.as_slice());
            if name.len() > 0 {
                return Some((*kind, string_from_chars(name.as_slice())));
            }
        }
        k += 1;
    }
    None
}

/// The indentation width of the start of `s` from `i` on: a space counts
/// one, a tab four, up to the first other character.
pub open spec fn indent_width(s: Seq<char>, i: int) -> nat
    decreases s.len() - i,
{
    if i < 0 || i >= s.len() {
        0
    } else if s[i] == ' ' {
        1 + indent_width(s, i + 1)
    } else if s[i] == '\t' {
        4 + indent_width(s, i + 1)
    } else {
        0
    }
}

pub proof fn lemma_indent_width_bound(s: Seq<char>, i: int)
    requires
        0 <= i <= s.len(),
    ensures
        indent_width(s, i) <= 4 * (s.len() - i),
    decreases s.len() - i,
{
    if i < s.len() {
        lemma_indent_width_bound(s, i + 1);
    }
}

/// The indentation level of a line: its indentation width in fours.
pub fn indent_of(line: &str) -> (r: u32)
    requires
        4 * line@.len() <= u32::MAX,
    ensures
        r == indent_width(line@, 0) / 4,
{
    let chars = chars_of(line);
    proof {
        lemma_indent_width_bound(line@, 0);
    }
    let mut count: u32 = 0;
    let mut i: usize = 0;
    while i < chars.len() && (chars[i] == ' ' || chars[i] == '\t')
        invariant
            chars@ == line@,
            i <= chars@.len(),
            4 * chars@.len() <= u32::MAX,
            count + indent_width(line@, i as int) == indent_width(line@, 0),
            indent_width(line@, 0) <= 4 * chars@.len(),
        decreases chars@.len() - i,
    {
        if chars[i] == ' ' {
            count += 1;
        } else {
            count += 4;
        }
        i += 1;
    }
    count / 4
}

/// The language a file's extension names, or "File".
pub open spec fn spec_lang_label(path: Seq<char>) -> Seq<char> {
    if ends_with(path, ".rs"@) {
        "Rust"@
    } else if ends_with(path, ".py"@) {
        "Python"@
    } else if ends_with(path, ".ts"@) || ends_with(path, ".tsx"@) {
        "TypeScript"@
    } else if ends_with(path, ".js"@) || ends_with(path, ".jsx"@) {
        "JavaScript"@
    } else if ends_with(path, ".go"@) {
        "Go"@
    } else {
        "File"@
    }
}

/// The language label of a file.
pub fn lang_label(path: &str) -> (r: &'static str)
    ensures
        r@ == spec_lang_label(path@),
{
    if str_ends_with(path, ".rs") {
        "Rust"
    } else if str_ends_with(path, ".py") {
        "Python"
    } else if str_ends_with(path, ".ts") || str_ends_with(path, ".tsx") {
        "TypeScript"
    } else if str_ends_with(path, ".js") || str_ends_with(path, ".jsx") {
        "JavaScript"
    } else if str_ends_with(path, ".go") {
        "Go"
    } else {
        "File"
    }
}

/// A declaration found in a file.
#[derive(Clone, Debug)]
pub struct Symbol {
    pub name: String,
    pub kind: SymbolKind,
    /// 1-based line number.
    pub line: u32,
    /// Indentation level (see `indent_of`).
    pub indent: u32,
}

/// What a symbol records: kind, name, line number and indentation level.
pub open spec fn symbol_view(s: Symbol) -> (SymbolKind, Seq<char>, u32, u32) {
    (s.kind, s.name@, s.line, s.indent)
}

/// The symbols among the first `n` lines, in order: one for each line that
/// starts a declaration, with its 1-based line number and indentation level.
pub open spec fn symbols_upto(lines: Seq<Seq<char>>, n: int) -> Seq<(SymbolKind, Seq<char>, u32, u32)>
    decreases n,
{
    if n <= 0 || n > lines.len() {
        Seq::empty()
    } else {
        symbols_upto(lines, n - 1) + match spec_classify_line(lines[n - 1]) {
            Some((k, name)) => seq![(k, name, n as u32, (indent_width(lines[n - 1], 0) / 4) as u32)],
            None => Seq::empty(),
        }
    }
}

/// The symbols of a file's text.
pub open spec fn spec_symbols(content: Seq<char>) -> Seq<(SymbolKind, Seq<char>, u32, u32)> {
    symbols_upto(lines_of(content), lines_of(content).len() as int)
}

/// The views of a list of symbols.
pub open spec fn symbol_views(v: Seq<Symbol>) -> Seq<(SymbolKind, Seq<char>, u32, u32)> {
    v.map_values(|s: Symbol| symbol_view(s))
}

/// The declarations of a file's text, line by line.
pub fn symbols_of(content: &str) -> (r: Vec<Symbol>)
    requires
        4 * content@.len() < u32::MAX,
    ensures
        symbol_views(r@) == spec_symbols(content@),
{
    let lines = split_lines(content);
    proof {
        crate::strings::lemma_lines_from_bounds(content@, 0);
    }
    let ghost ls = lines_of(content@);
    let mut symbols: Vec<Symbol> = Vec::new();
    let mut i: usize = 0;
    while i < lines.len()
        invariant
            ls == lines_of(content@),
            lines@.len() == ls.len(),
            forall|k: int| 0 <= k < lines@.len() ==> #[trigger] lines@[k]@ == ls[k],
            ls.len() <= content@.len(),
            forall|k: int| 0 <= k < ls.len() ==> #[trigger] ls[k].len() <= content@.len(),
            4 * content@.len() < u32::MAX,
            i <= lines@.len(),
            symbol_views(symbols@) == symbols_upto(ls, i as int),
        decreases lines@.len() - i,
    {
        let line = string_from_chars(lines[i].as_slice());
        assert(line@ == ls[i as int]);
        let found = classify_line(line.as_str());
        let ghost before = symbols@;
        match found {
            Some((kind, name)) => {
                let indent = indent_of(line.as_str());
                let number: u32 = (i as u32) + 1;
                symbols.push(Symbol { name, kind, line: number, indent });
                assert(symbol_views(symbols@) =~= symbol_views(before) + seq![(kind, name@, number, indent)]);
            },
            None => {
                assert(symbol_views(symbols@) =~= symbol_views(before) + Seq::empty());
            },
        }
        i += 1;
    }
    symbols
}

/// What the outline panel shows.
#[derive(Clone, Debug)]
pub enum OutlineState {
    /// No file is active.
    NoFile,
    /// The active file could not be read.
    Error(String),
    /// The symbols of the active file are listed.
    Ready,
}

/// The outline panel: the active file and its symbols.
pub struct OutlinePanel {
    pub active_file: Option<String>,
    pub symbols: Vec<Symbol>,
    pub state: OutlineState,
}

/// The command the panel registers, and the only one it runs.
pub open spec fn outline_command() -> Seq<char> {
    "open-outline"@
}

impl OutlinePanel {
    /// A panel with no active file.
    pub fn new() -> (r: Self)
        ensures
            r.active_file is None,
            r.symbols@.len() == 0,
            r.state is NoFile,
    {
        OutlinePanel { active_file: None, symbols: Vec::new(), state: OutlineState::NoFile }
    }

    /// Makes `path` the active file. Without a file the outline is cleared;
    /// with one, the file's text is needed: the path to read is returned,
    /// and `finish_reload` takes what reading it gave.
    pub fn reload(&mut self, path: Option<String>) -> (to_read: Option<String>)
        ensures
            final(self).active_file == path,
            to_read == path,
            path is None ==> final(self).symbols@.len() == 0 && final(self).state is NoFile,
            path is Some ==> final(self).symbols@ == old(self).symbols@ && final(self).state == old(self).state,
    {
        self.active_file = path.clone();
        match path {
            None => {
                self.symbols.clear();
                self.state = OutlineState::NoFile;
                None
            },
            Some(p) => Some(p),
        }
    }

    /// Takes the text of the active file, or why it could not be read: the
    /// symbols of the text are listed, or the error is shown with no symbols.
    pub fn finish_reload(&mut self, loaded: Result<String, String>)
        requires
            loaded matches Ok(c) ==> 4 * c@.len() < u32::MAX,
        ensures
            final(self).active_file == old(self).active_file,
            match loaded {
                Ok(c) => symbol_views(final(self).symbols@) == spec_symbols(c@) && final(self).state is Ready,
                Err(e) => final(self).symbols@.len() == 0 && final(self).state == OutlineState::Error(e),
            },
    {
        match loaded {
            Ok(content) => {
                self.symbols = symbols_of(content.as_str());
                self.state = OutlineState::Ready;
            },
            Err(err) => {
                self.symbols.clear();
                self.state = OutlineState::Error(err);
            },
        }
    }

    /// Handles a workspace event: when the active file changes, reloads
    /// with the new file (none when the path is empty). Returns the path to
    /// read, if any.
    pub fn on_pub_sub_event(&mut self, topic: &str, data: String) -> (to_read: Option<String>)
        ensures
            topic@ == "zed.active-file-changed"@ ==> {
                let path = if data@.len() == 0 { None } else { Some(data) };
                &&& final(self).active_file == path
                &&& to_read == path
                &&& path is None ==> final(self).symbols@.len() == 0 && final(self).state is NoFile
                &&& path is Some ==> final(self).symbols@ == old(self).symbols@ && final(self).state == old(self).state
            },
            topic@ != "zed.active-file-changed"@ ==> to_read is None && final(self).active_file == old(self).active_file
                && final(self).symbols@ == old(self).symbols@ && final(self).state == old(self).state,
    {
        if str_eq(topic, "zed.active-file-changed") {
            let path = if data.as_str().is_empty() { None } else { Some(data) };
            self.reload(path)
        } else {
            None
        }
    }

    /// Handles a UI event: the refresh button reloads the active file.
    /// Returns the path to read, if any.
    pub fn gui_on_event(&mut self, source_id: &str) -> (to_read: Option<String>)
        ensures
            source_id@ == "refresh"@ ==> final(self).active_file == old(self).active_file && to_read == old(self).active_file
                && (old(self).active_file is None ==> final(self).symbols@.len() == 0 && final(self).state is NoFile)
                && (old(self).active_file is Some ==> final(self).symbols@ == old(self).symbols@ && final(self).state == old(self).state),
            source_id@ != "refresh"@ ==> to_read is None && final(self).active_file == old(self).active_file
                && final(self).symbols@ == old(self).symbols@ && final(self).state == old(self).state,
    {
        if str_eq(source_id, "refresh") {
            let current = self.active_file.clone();
            self.reload(current)
        } else {
            None
        }
    }

    /// Runs one of the panel's commands: only `open-outline` is known.
    pub fn run_extension_command(&self, command_id: &str) -> (r: Result<(), String>)
        ensures
            command_id@ == outline_command() ==> r is Ok,
            command_id@ != outline_command() ==> (r matches Err(e) && e@ == "unknown command: "@ + command_id@),
    {
        if str_eq(command_id, "open-outline") {
            Ok(())
        } else {
            Err(concat_str("unknown command: ", command_id))
        }
    }
}

/// The texts of one symbol's row: its kind tag in the kind's color, its
/// name, and its line number, muted.
pub open spec fn symbol_row_labels(s: (SymbolKind, Seq<char>, u32, u32)) -> Seq<Shown> {
    seq![(spec_kind_label(s.0), Some(spec_kind_color(s.0))), (s.1, None::<Color>), (decimal(s.2 as nat), Some(Color::TextMuted))]
}

/// The texts of the rows of the first `n` symbols.
pub open spec fn symbol_rows_labels(v: Seq<(SymbolKind, Seq<char>, u32, u32)>, n: int) -> Seq<Shown>
    decreases n,
{
    if n <= 0 || n > v.len() {
        Seq::empty()
    } else {
        symbol_rows_labels(v, n - 1) + symbol_row_labels(v[n - 1])
    }
}

/// The ids of the rows of the first `n` symbols: `sym-<index>`.
pub open spec fn symbol_row_ids(n: int) -> Seq<Seq<char>> {
    Seq::new(n as nat, |i: int| "sym-"@ + decimal(i as nat))
}

/// The file name shown for a path: the part after the last `/`.
pub open spec fn shown_file_name(path: Option<String>) -> Seq<char> {
    after_last_slash(match path { Some(p) => p@, None => Seq::empty() })
}

/// `"<n> symbol"` or `"<n> symbols"`.
pub open spec fn symbol_count_text(n: nat) -> Seq<char> {
    decimal(n) + " symbol"@ + (if n == 1 { Seq::empty() } else { "s"@ })
}

/// What the outline panel shows in each state: a notice without a file;
/// the error with a retry button; or a header with the file's name and
/// language, the number of symbols, and a row per symbol (or a notice when
/// there are none).
pub open spec fn outline_labels(p: OutlinePanel) -> Seq<Shown> {
    match p.state {
        OutlineState::NoFile => seq![("No file open"@, Some(Color::TextMuted)), ("Open a file in the editor to see its outline"@, Some(Color::TextMuted))],
        OutlineState::Error(e) => seq![("Error: "@ + e@, Some(Color::StatusError)), ("Retry"@, None::<Color>)],
        OutlineState::Ready => seq![
            ("◈"@, Some(Color::Accent)),
            (shown_file_name(p.active_file), None::<Color>),
            (spec_lang_label(match p.active_file { Some(f) => f@, None => Seq::empty() }), Some(Color::TextMuted)),
            ("↺"@, Some(Color::TextMuted)),
            (symbol_count_text(p.symbols@.len()), Some(Color::TextMuted)),
        ] + if p.symbols@.len() == 0 {
            seq![("No symbols found"@, Some(Color::TextMuted))]
        } else {
            symbol_rows_labels(symbol_views(p.symbols@), p.symbols@.len() as int)
        },
    }
}

/// The controls of the outline panel in each state.
pub open spec fn outline_controls(p: OutlinePanel) -> Seq<Seq<char>> {
    match p.state {
        OutlineState::NoFile => Seq::empty(),
        OutlineState::Error(_) => seq!["refresh"@],
        OutlineState::Ready => seq!["refresh"@] + symbol_row_ids(p.symbols@.len() as int),
    }
}

/// The shape of a symbol's row: a clickable row `sym-<index>` holding a
/// spacer as wide as the symbol's indentation, its kind tag on a surface
/// background, its name and its line number.
#[verifier::opaque]
pub open spec fn symbol_row_shape(s: Symbol, index: nat) -> Shape {
    let st = sv_gap_x(sv_items_center(sv_py(sv_px_2(row_style()), Length::Px(F32_3))), DefiniteLength::Px(F32_6));
    let spacer = plain(sv_w(no_style(), Length::Px(spec_small_int_f32((s.indent * 12) as nat))), seq![]);
    let tag_style = sv_bg(sv_rounded_sm(sv_py(sv_px(no_style(), Length::Px(F32_4)), Length::Px(F32_1))), Color::SurfaceBackground);
    let tag = plain(tag_style, seq![Shape::Text(spec_kind_label(s.kind), sv_bold(sv_text_xs(sv_color(no_style(), spec_kind_color(s.kind)))))]);
    let name_box = plain(
        sv_overflow_x_hidden(sv_min_w(sv_flex_1(no_style()), DefiniteLength::Px(F32_0))),
        seq![Shape::Text(s.name@, sv_single_line(sv_text_sm(no_style())))],
    );
    clickable("sym-"@ + decimal(index), sv_cursor_pointer(st), seq![
        spacer,
        tag,
        name_box,
        Shape::Text(decimal(s.line as nat), sv_muted(sv_text_xs(no_style()))),
    ])
}

/// The shapes of the rows of `symbols`, in order.
pub open spec fn symbol_rows_shapes(symbols: Seq<Symbol>) -> Seq<Shape> {
    Seq::new(symbols.len(), |i: int| symbol_row_shape(symbols[i], i as nat))
}

/// The shape of the outline panel's whole tree: the notice without a file;
/// the error view; when ready, the column of the head (header, rule, symbol
/// count, rule) followed by exactly one row per symbol, in order, or by the
/// notice that there are none.
pub open spec fn outline_view_claims(p: OutlinePanel, s: Shape) -> bool {
    match p.state {
        OutlineState::NoFile => s == plain(
            sv_gap_y(sv_justify_center(sv_items_center(sv_size_full(column_style()))), DefiniteLength::Px(F32_8)),
            seq![
                Shape::Text("No file open"@, sv_muted(no_style())),
                Shape::Text("Open a file in the editor to see its outline"@, sv_text_xs(sv_muted(no_style()))),
            ],
        ),
        OutlineState::Error(e) => s == error_view_shape("Error: "@ + e@),
        OutlineState::Ready => s == plain(
            outline_column_style(),
            outline_head_children(p.active_file, p.symbols@.len()) + if p.symbols@.len() == 0 {
                seq![plain(sv_py_3(sv_px_3(no_style())), seq![
                    Shape::Text("No symbols found"@, sv_italic(sv_text_xs(sv_muted(no_style())))),
                ])]
            } else {
                symbol_rows_shapes(p.symbols@)
            },
        ),
    }
}

/// The row of a symbol: indented by its level, its kind tag, its name and
/// its line number; clicking it reports `sym-<index>`.
fn symbol_row(sym: &Symbol, index: usize, handlers: &mut HandlerRegistry<()>) -> (r: Div)
    requires
        sym.indent < 0x10_0000,
    ensures
        div_labels(r) == symbol_row_labels(symbol_view(*sym)),
        div_controls(r) == seq!["sym-"@ + decimal(index as nat)],
        div_size(r) == 7,
        div_shape(r) == symbol_row_shape(*sym, index as nat),
        final(handlers)@ == old(handlers)@ + clicks(seq!["sym-"@ + decimal(index as nat)]),
{
    proof {
        reveal(symbol_row_shape);
    }
    let ghost id = "sym-"@ + decimal(index as nat);
    let row = h_flex()
        .id(indexed_id("sym-", index))
        .px_2()
        .py(Length::Px(F32_3))
        .items_center()
        .gap_x(DefiniteLength::Px(F32_6))
        .cursor_pointer()
        .on_click((), handlers);
    let spacer = div().w(Length::Px(small_int_f32(sym.indent * 12)));
    let ghost s0 = div_shape(spacer);
    let row = with_div(row, spacer);
    let tag = div().px(Length::Px(F32_4)).py(Length::Px(F32_1)).rounded_sm().bg(color_surface());
    let tag = with_label(tag, Label::new(sym.kind.label().to_owned()).color(sym.kind.color()).text_xs().bold());
    let ghost s1 = div_shape(tag);
    let row = with_div(row, tag);
    let name_box = div().flex_1().min_w(DefiniteLength::Px(F32_0)).overflow_x_hidden();
    let name_box = with_label(name_box, Label::new(sym.name.clone()).text_sm().single_line());
    let ghost s2 = div_shape(name_box);
    let row = with_div(row, name_box);
    let line_label = Label::new(usize_to_string(sym.line as usize)).text_xs().muted();
    let ghost s3 = crate::view::label_shape(line_label);
    let row = with_label(row, line_label);
    assert(seq![].push(s0).push(s1).push(s2).push(s3) =~= seq![s0, s1, s2, s3]);
    assert(div_labels(row) =~= symbol_row_labels(symbol_view(*sym)));
    assert(div_controls(row) =~= seq![id]);
    assert(final(handlers)@ =~= old(handlers)@ + clicks(seq![id]));
    row
}

/// The texts of the panel's header, symbol count and rules, for the active
/// file `path` with `n` symbols.
pub open spec fn outline_head_labels(path: Option<String>, n: nat) -> Seq<Shown> {
    seq![
        ("◈"@, Some(Color::Accent)),
        (shown_file_name(path), None::<Color>),
        (spec_lang_label(match path { Some(f) => f@, None => Seq::empty() }), Some(Color::TextMuted)),
        ("↺"@, Some(Color::TextMuted)),
        (symbol_count_text(n), Some(Color::TextMuted)),
    ]
}

/// The shape of the outline's header: the file's marker and name on the
/// left; its language and the refresh button on the right.
#[verifier::opaque]
pub open spec fn outline_header_shape(file_name: Seq<char>, lang: Seq<char>) -> Shape {
    let name_group = plain(sv_items_center(sv_gap_x(row_style(), DefiniteLength::Px(F32_6))), seq![
        Shape::Text("◈"@, sv_color(no_style(), Color::Accent)),
        Shape::Text(file_name, sv_text_sm(sv_bold(no_style()))),
    ]);
    let lang_group = plain(sv_items_center(sv_gap_x(row_style(), DefiniteLength::Px(F32_6))), seq![
        Shape::Text(lang, sv_text_xs(sv_muted(no_style()))),
        refresh_button_shape(),
    ]);
    plain(sv_justify_between(sv_items_center(sv_py_2(sv_px_3(row_style())))), seq![name_group, lang_group])
}

/// The shape of the line that counts the symbols.
#[verifier::opaque]
pub open spec fn count_row_shape(text: Seq<char>) -> Shape {
    plain(sv_py(sv_px_3(no_style()), Length::Px(F32_4)), seq![Shape::Text(text, sv_text_xs(sv_muted(no_style())))])
}

/// The style of the outline's column.
pub open spec fn outline_column_style() -> StyleV {
    sv_overflow_y_scroll(sv_size_full(column_style()))
}

/// The outline's header.
fn outline_header(file_name: String, lang: String, handlers: &mut HandlerRegistry<()>) -> (r: Div)
    ensures
        div_shape(r) == outline_header_shape(file_name@, lang@),
        div_labels(r) == seq![("◈"@, Some(Color::Accent)), (file_name@, None::<Color>), (lang@, Some(Color::TextMuted)), ("↺"@, Some(Color::TextMuted))],
        inner_controls(r) == seq!["refresh"@],
        r.id is None,
        div_size(r) == 8,
        final(handlers)@ == old(handlers)@ + clicks(seq!["refresh"@]),
{
    proof {
        reveal(outline_header_shape);
    }
    let ghost (fv, lv) = (file_name@, lang@);
    let name_group = h_flex().gap_x(DefiniteLength::Px(F32_6)).items_center();
    let l0 = Label::new("◈".to_owned()).color(color_accent());
    let l1 = Label::new(file_name).bold().text_sm();
    let ghost (a0, a1) = (label_shape(l0), label_shape(l1));
    let name_group = with_label(name_group, l0);
    let name_group = with_label(name_group, l1);
    assert(seq![].push(a0).push(a1) =~= seq![a0, a1]);
    let lang_group = h_flex().gap_x(DefiniteLength::Px(F32_6)).items_center();
    let l2 = Label::new(lang).muted().text_xs();
    let ghost a2 = label_shape(l2);
    let lang_group = with_label(lang_group, l2);
    let refresh = refresh_button(handlers);
    let lang_group = with_div(lang_group, refresh);
    assert(seq![].push(a2).push(refresh_button_shape()) =~= seq![a2, refresh_button_shape()]);
    let header = h_flex().px_3().py_2().items_center().justify_between();
    let ghost (g0, g1) = (div_shape(name_group), div_shape(lang_group));
    let header = with_div(header, name_group);
    let header = with_div(header, lang_group);
    assert(seq![].push(g0).push(g1) =~= seq![g0, g1]);
    assert(div_labels(header) =~= seq![("◈"@, Some(Color::Accent)), (fv, None::<Color>), (lv, Some(Color::TextMuted)), ("↺"@, Some(Color::TextMuted))]);
    assert(inner_controls(header) =~= seq!["refresh"@]);
    header
}

/// The line that counts the symbols.
fn count_row(text: String) -> (r: Div)
    ensures
        div_shape(r) == count_row_shape(text@),
        div_labels(r) == seq![(text@, Some(Color::TextMuted))],
        div_controls(r) == Seq::<Seq<char>>::empty(),
        div_size(r) == 2,
{
    proof {
        reveal(count_row_shape);
    }
    let ghost tv = text@;
    let row = div().px_3().py(Length::Px(F32_4));
    let l = Label::new(text).muted().text_xs();
    let ghost a = label_shape(l);
    let row = with_label(row, l);
    assert(seq![].push(a) =~= seq![a]);
    assert(div_labels(row) =~= seq![(tv, Some(Color::TextMuted))]);
    assert(div_controls(row) =~= Seq::<Seq<char>>::empty());
    row
}

/// The head of the outline: the header, a rule, the symbol count and a rule.
pub open spec fn outline_head_children(path: Option<String>, n: nat) -> Seq<Shape> {
    seq![
        outline_header_shape(shown_file_name(path), spec_lang_label(match path { Some(f) => f@, None => Seq::empty() })),
        rule_shape(),
        count_row_shape(symbol_count_text(n)),
        rule_shape(),
    ]
}

/// The column with the header, the symbol count and the rules around it.
fn outline_head(path: &Option<String>, symbol_count: usize, handlers: &mut HandlerRegistry<()>) -> (r: Div)
    ensures
        r.id is None,
        div_labels(r) == outline_head_labels(*path, symbol_count as nat),
        inner_controls(r) == seq!["refresh"@],
        div_size(r) == 13,
        div_shape(r) == plain(outline_column_style(), outline_head_children(*path, symbol_count as nat)),
        final(handlers)@ == old(handlers)@ + clicks(seq!["refresh"@]),
{
    let file_path = match path {
        Some(p) => p.clone(),
        None => String::new(),
    };
    let path_chars = chars_of(file_path.as_str());
    let file_name = string_from_chars(after_last_slash_chars(path_chars.as_slice()).as_slice());
    let lang = lang_label(file_path.as_str()).to_owned();
    assert(file_name@ == shown_file_name(*path));
    assert(lang@ == spec_lang_label(match *path { Some(f) => f@, None => Seq::empty() }));
    let header = outline_header(file_name, lang, handlers);

    let mut count_text = usize_to_string(symbol_count);
    count_text.append(" symbol");
    if symbol_count != 1 {
        count_text.append("s");
    }
    assert(count_text@ == symbol_count_text(symbol_count as nat));
    let count_row = count_row(count_text);

    let root = v_flex().size_full().overflow_y_scroll();
    let ghost (h, c) = (div_shape(header), div_shape(count_row));
    let root = with_div(root, header);
    let root = with_div(root, rule());
    let root = with_div(root, count_row);
    let root = with_div(root, rule());
    assert(seq![].push(h).push(rule_shape()).push(c).push(rule_shape()) =~= seq![h, rule_shape(), c, rule_shape()]);
    assert(h == outline_header_shape(shown_file_name(*path), spec_lang_label(match *path { Some(f) => f@, None => Seq::empty() })));
    assert(c == count_row_shape(symbol_count_text(symbol_count as nat)));
    assert(seq![h, rule_shape(), c, rule_shape()] == outline_head_children(*path, symbol_count as nat));
    assert(div_shape(root) == plain(outline_column_style(), seq![h, rule_shape(), c, rule_shape()]));
    assert(div_labels(root) =~= outline_head_labels(*path, symbol_count as nat));
    assert(inner_controls(root) =~= seq!["refresh"@]);
    root
}

/// The rows of the symbols, in order.
fn symbol_rows(symbols: &Vec<Symbol>, handlers: &mut HandlerRegistry<()>) -> (r: Vec<Div>)
    requires
        forall|k: int| 0 <= k < symbols@.len() ==> (#[trigger] symbols@[k]).indent < 0x10_0000,
    ensures
        divs_labels(r@) == symbol_rows_labels(symbol_views(symbols@), symbols@.len() as int),
        divs_controls(r@) == symbol_row_ids(symbols@.len() as int),
        divs_size(r@) == 7 * symbols@.len(),
        divs_shapes(r@) == symbol_rows_shapes(symbols@),
        final(handlers)@ == old(handlers)@ + clicks(symbol_row_ids(symbols@.len() as int)),
{
    let mut r: Vec<Div> = Vec::new();
    let mut i: usize = 0;
    assert(old(handlers)@ + clicks(symbol_row_ids(0)) =~= old(handlers)@);
    assert(divs_controls(r@) =~= symbol_row_ids(0));
    assert(divs_shapes(r@) =~= symbol_rows_shapes(symbols@.take(0)));
    while i < symbols.len()
        invariant
            i <= symbols@.len(),
            forall|k: int| 0 <= k < symbols@.len() ==> (#[trigger] symbols@[k]).indent < 0x10_0000,
            divs_labels(r@) == symbol_rows_labels(symbol_views(symbols@), i as int),
            divs_controls(r@) == symbol_row_ids(i as int),
            divs_size(r@) == 7 * i,
            divs_shapes(r@) == symbol_rows_shapes(symbols@.take(i as int)),
            handlers@ == old(handlers)@ + clicks(symbol_row_ids(i as int)),
        decreases symbols@.len() - i,
    {
        let ghost before = r@;
        let row = symbol_row(&symbols[i], i, handlers);
        r.push(row);
        proof {
            assert(r@.drop_last() =~= before);
            assert(symbol_views(symbols@)[i as int] == symbol_view(symbols@[i as int]));
            assert(symbol_row_ids(i + 1) =~= symbol_row_ids(i as int).push("sym-"@ + decimal(i as nat)));
            assert(divs_labels(r@) =~= symbol_rows_labels(symbol_views(symbols@), i + 1));
            assert(divs_controls(r@) =~= symbol_row_ids(i + 1));
            assert(divs_shapes(r@) =~= symbol_rows_shapes(symbols@.take(i + 1)));
            assert(clicks(symbol_row_ids(i + 1)) =~= clicks(symbol_row_ids(i as int)) + clicks(seq!["sym-"@ + decimal(i as nat)]));
            assert(handlers@ =~= old(handlers)@ + clicks(symbol_row_ids(i + 1)));
        }
        i += 1;
    }
    assert(symbols@.take(i as int) =~= symbols@);
    r
}

/// The order in which a render registers click handlers: the symbol rows
/// are built first, then the header's refresh button.
pub open spec fn outline_registrations(p: OutlinePanel) -> Seq<Seq<char>> {
    match p.state {
        OutlineState::NoFile => Seq::empty(),
        OutlineState::Error(_) => seq!["refresh"@],
        OutlineState::Ready => symbol_row_ids(p.symbols@.len() as int) + seq!["refresh"@],
    }
}

impl OutlinePanel {
    /// The panel's element tree for its current state.
    pub fn view(&self, handlers: &mut HandlerRegistry<()>) -> (r: Div)
        requires
            forall|k: int| 0 <= k < self.symbols@.len() ==> (#[trigger] self.symbols@[k]).indent < 0x10_0000,
            self.symbols@.len() < 0x1000_0000,
        ensures
            div_labels(r) == outline_labels(*self),
            div_controls(r) == outline_controls(*self),
            div_size(r) <= 15 + 7 * self.symbols@.len(),
            outline_view_claims(*self, div_shape(r)),
            final(handlers)@ == old(handlers)@ + clicks(outline_registrations(*self)),
    {
        match &self.state {
            OutlineState::NoFile => {
                let r = v_flex().size_full().items_center().justify_center().gap_y(DefiniteLength::Px(F32_8));
                let l0 = Label::new("No file open".to_owned()).muted();
                let l1 = Label::new("Open a file in the editor to see its outline".to_owned()).muted().text_xs();
                let ghost (a0, a1) = (label_shape(l0), label_shape(l1));
                let r = with_label(r, l0);
                let r = with_label(r, l1);
                assert(seq![].push(a0).push(a1) =~= seq![a0, a1]);
                assert(div_labels(r) =~= outline_labels(*self));
                assert(div_controls(r) =~= outline_controls(*self));
                assert(old(handlers)@ + clicks(outline_registrations(*self)) =~= old(handlers)@);
                r
            },
            OutlineState::Error(err) => {
                error_view(concat_str("Error: ", err.as_str()), handlers)
            },
            OutlineState::Ready => {
                let rows = symbol_rows(&self.symbols, handlers);
                let ghost hr = handlers@;
                let head = outline_head(&self.active_file, self.symbols.len(), handlers);
                if self.symbols.len() == 0 {
                    let notice = div().px_3().py_3();
                    let l = Label::new("No symbols found".to_owned()).muted().text_xs().italic();
                    let ghost ls = label_shape(l);
                    let notice = with_label(notice, l);
                    assert(seq![].push(ls) =~= seq![ls]);
                    let ghost hs = children_of(div_shape(head));
                    let ghost ns = div_shape(notice);
                    proof {
                        lemma_div_shape_is_node(head);
                    }
                    let r = with_div(head, notice);
                    assert(hs.push(ns) =~= hs + seq![ns]);
                    assert(div_labels(r) =~= outline_labels(*self));
                    assert(div_controls(r) =~= inner_controls(r));
                    assert(div_controls(r) =~= outline_controls(*self));
                    assert(symbol_row_ids(0) =~= Seq::<Seq<char>>::empty());
                    assert(handlers@ =~= old(handlers)@ + clicks(outline_registrations(*self)));
                    r
                } else {
                    let ghost hs = children_of(div_shape(head));
                    let ghost rs = divs_shapes(rows@);
                    proof {
                        lemma_div_shape_is_node(head);
                    }
                    let r = with_divs(head, rows);

                    assert(div_labels(r) =~= outline_labels(*self));
                    assert(div_controls(r) =~= inner_controls(r));
                    assert(div_controls(r) =~= outline_controls(*self));
                    assert(clicks(symbol_row_ids(self.symbols@.len() as int) + seq!["refresh"@]) =~= clicks(symbol_row_ids(self.symbols@.len() as int)) + clicks(seq!["refresh"@]));
                    assert(handlers@ =~= old(handlers)@ + clicks(outline_registrations(*self)));
                    r
                }
            },
        }
    }

    /// Renders the panel: clears the handlers of the previous render and
    /// flattens the panel's element tree.
    pub fn gui_render(&self, handlers: &mut HandlerRegistry<()>) -> (tree: UiTree)
        requires
            forall|k: int| 0 <= k < self.symbols@.len() ==> (#[trigger] self.symbols@[k]).indent < 0x10_0000,
            self.symbols@.len() < 0x1000_0000,
        ensures
            tree_well_formed(tree),
            tree.root == 0,
            exists|v: Div| #[trigger] is_flat(tree.nodes@, 0, AnyNode::Div(v)) && div_labels(v) == outline_labels(*self)
                && div_controls(v) == outline_controls(*self) && outline_view_claims(*self, div_shape(v)),
            final(handlers)@ == clicks(outline_registrations(*self)),
    {
        handlers.clear_handlers();
        let v = self.view(handlers);
        let ghost gv = v;
        assert(Seq::<(Seq<char>, HandlerKind, ())>::empty() + clicks(outline_registrations(*self)) =~= clicks(outline_registrations(*self)));
        let tree = render_tree(v);
        assert(is_flat(tree.nodes@, 0, AnyNode::Div(gv)));
        tree
    }
}

} // verus!
