//! The project tree demo panel: lists the files of the project, lets
//! directories be collapsed, and asks the host to open a clicked file.
use vstd::prelude::*;
use crate::elements::{Background, Color, DefiniteLength, Length, UiTree, F32_2, F32_6, F32_12};
use crate::events::{HandlerKind, HandlerRegistry};
use crate::flatten::{is_flat, render_tree, tree_well_formed};
use crate::strings::{after_last_slash, starts_with, str_starts_with};
use crate::text::{decimal, indexed_id};
use crate::ui::{color_accent, color_surface, div, h_flex, v_flex, AnyNode, Div, Label};
use crate::shape::{
    sv_bold, sv_italic, sv_justify_between, sv_overflow_y_scroll, sv_px_3, sv_py_2, children_of, column_style, lemma_div_shape_is_node, sv_justify_center, sv_size_full, clickable, div_shape, no_style, plain, row_style, shape_style, Shape, sv_bg, sv_color, sv_cursor_pointer,
    sv_gap_x, sv_items_center, sv_muted, sv_px_2, sv_py, sv_text_sm, sv_text_xs, sv_w,
};
use crate::view::{refresh_button_shape, error_view_shape, rule_shape, label_shape, spec_small_int_f32, clicks, div_controls, div_labels, div_size, error_view, inner_controls, refresh_button, rule, small_int_f32, with_div, with_label, Shown};
use crate::text::{chars_of, concat_str, push_char, spec_parse_indexed_id, parse_indexed_id, str_eq};

verus! {

/// Whether an entry is a directory or a file.
#[derive(Clone, Copy, PartialEq, Eq, Structural, Debug)]
pub enum EntryKind {
    Directory,
    File,
}

/// A file or directory of the project.
#[derive(Clone, Debug)]
pub struct FileEntry {
    pub name: String,
    pub path: String,
    pub kind: EntryKind,
    /// How many directories deep below the project root.
    pub depth: usize,
}

/// Names that the listing leaves out: hidden files and the usual build and
/// dependency directories.
pub open spec fn spec_should_skip(name: Seq<char>) -> bool {
    starts_with(name, "."@) || name == "target"@ || name == "node_modules"@
}

/// Whether a file or directory is left out of the listing.
pub fn should_skip(name: &str) -> (r: bool)
    ensures
        r == spec_should_skip(name@),
{
    str_starts_with(name, ".") || str_eq(name, "target") || str_eq(name, "node_modules")
}

/// The icon shown for an entry: a folder for directories, and for files
/// one by extension (Rust, TOML, Markdown, JSON) or a page.
pub open spec fn spec_file_icon(kind: EntryKind, name: Seq<char>) -> Seq<char> {
    match kind {
        EntryKind::Directory => "📁"@,
        EntryKind::File => if crate::strings::ends_with(name, ".rs"@) {
            "🦀"@
        } else if crate::strings::ends_with(name, ".toml"@) {
            "⚙️"@
        } else if crate::strings::ends_with(name, ".md"@) {
            "📝"@
        } else if crate::strings::ends_with(name, ".json"@) {
            "📋"@
        } else {
            "📄"@
        },
    }
}

/// The icon of an entry.
pub fn file_icon(kind: &EntryKind, name: &str) -> (r: &'static str)
    ensures
        r@ == spec_file_icon(*kind, name@),
{
    match kind {
        EntryKind::Directory => "📁",
        EntryKind::File => {
            if crate::strings::str_ends_with(name, ".rs") {
                "🦀"
            } else if crate::strings::str_ends_with(name, ".toml") {
                "⚙️"
            } else if crate::strings::str_ends_with(name, ".md") {
                "📝"
            } else if crate::strings::str_ends_with(name, ".json") {
                "📋"
            } else {
                "📄"
            }
        },
    }
}

/// `s` with backslashes and double quotes escaped by a backslash, so that
/// it can stand between double quotes in JSON.
pub open spec fn escape_quoted(s: Seq<char>) -> Seq<char>
    decreases s.len(),
{
    if s.len() == 0 {
        s
    } else {
        let c = s.last();
        escape_quoted(s.drop_last()) + if c == '\\' {
            seq!['\\', '\\']
        } else if c == '"' {
            seq!['\\', '"']
        } else {
            seq![c]
        }
    }
}

/// The parameters of the host's `open_file` call for a path:
/// `{"path":"<path>"}` with the path escaped.
pub open spec fn spec_open_file_params(path: Seq<char>) -> Seq<char> {
    "{\"path\":\""@ + escape_quoted(path) + "\"}"@
}

/// The parameters of the host's `open_file` call for a path.
pub fn open_file_params(path: &str) -> (r: String)
    ensures
        r@ == spec_open_file_params(path@),
{
    let chars = chars_of(path);
    let mut r = "{\"path\":\"".to_owned();
    let ghost head = r@;
    let mut i: usize = 0;
    while i < chars.len()
        invariant
            chars@ == path@,
            i <= chars@.len(),
            r@ == head + escape_quoted(path@.take(i as int)),
        decreases chars@.len() - i,
    {
        let c = chars[i];
        if c == '\\' {
            push_char(&mut r, '\\');
            push_char(&mut r, '\\');
        } else if c == '"' {
            push_char(&mut r, '\\');
            push_char(&mut r, '"');
        } else {
            push_char(&mut r, c);
        }
        proof {
            let t = path@.take(i + 1);
            assert(t.drop_last() =~= path@.take(i as int));
            assert(t.last() == c);
        }
        assert(r@ =~= head + escape_quoted(path@.take(i + 1)));
        i += 1;
    }
    assert(path@.take(i as int) =~= path@);
    let tail = concat_str(r.as_str(), "\"}");
    tail
}

/// What a click on the project panel asks the host for.
#[derive(Clone, Debug)]
pub enum ProjectStep {
    /// Nothing.
    Done,
    /// List the project at this root again, and hand the result to
    /// `apply_listing`.
    List(String),
    /// Call the host's `open_file` method with these parameters.
    OpenFile(String),
}

/// The project panel's state.
pub struct ProjectPanel {
    pub project_root: Option<String>,
    pub active_file: Option<String>,
    pub entries: Vec<FileEntry>,
    /// Paths of the directories whose contents are hidden.
    pub collapsed_dirs: Vec<String>,
    pub loading: bool,
    pub error: Option<String>,
}

/// Index of `path` among `dirs`, if there.
pub open spec fn position_of(dirs: Seq<String>, path: Seq<char>, i: int) -> Option<int>
    decreases dirs.len() - i,
{
    if i < 0 || i >= dirs.len() {
        None
    } else if dirs[i]@ == path {
        Some(i)
    } else {
        position_of(dirs, path, i + 1)
    }
}

pub proof fn lemma_position_of_bounds(dirs: Seq<String>, path: Seq<char>, i: int)
    requires
        0 <= i,
    ensures
        position_of(dirs, path, i) matches Some(p) ==> i <= p < dirs.len() && dirs[p]@ == path,
    decreases dirs.len() - i,
{
    if i < dirs.len() && dirs[i]@ != path {
        lemma_position_of_bounds(dirs, path, i + 1);
    }
}

/// The collapsed directories after a click on a directory: collapsed again
/// when it was expanded, expanded when it was collapsed.
pub open spec fn toggled(dirs: Seq<String>, path: String) -> Seq<Seq<char>> {
    match position_of(dirs, path@, 0) {
        Some(p) => crate::json::string_views(dirs.remove(p)),
        None => crate::json::string_views(dirs.push(path)),
    }
}

impl ProjectPanel {
    /// A panel waiting for its project root.
    pub fn new() -> (r: Self)
        ensures
            r.project_root is None,
            r.active_file is None,
            r.entries@.len() == 0,
            r.collapsed_dirs@.len() == 0,
            r.loading,
            r.error is None,
    {
        ProjectPanel {
            project_root: None,
            active_file: None,
            entries: Vec::new(),
            collapsed_dirs: Vec::new(),
            loading: true,
            error: None,
        }
    }

    /// Takes the listing of the project: its entries, or why listing failed.
    pub fn apply_listing(&mut self, listed: Result<Vec<FileEntry>, String>)
        ensures
            !final(self).loading,
            final(self).project_root == old(self).project_root,
            final(self).active_file == old(self).active_file,
            final(self).collapsed_dirs@ == old(self).collapsed_dirs@,
            match listed {
                Ok(e) => final(self).entries@ == e@ && final(self).error == old(self).error,
                Err(m) => final(self).entries@ == old(self).entries@ && final(self).error == Some(m),
            },
    {
        match listed {
            Ok(entries) => {
                self.entries = entries;
                self.loading = false;
            },
            Err(err) => {
                self.loading = false;
                self.error = Some(err);
            },
        }
    }

    /// Handles a workspace event. A new project root is recorded and must
    /// be listed (the root is returned), an empty one is an error; a new
    /// active file is recorded (none when empty).
    pub fn on_pub_sub_event(&mut self, topic: &str, data: String) -> (list: Option<String>)
        ensures
            topic@ == "zed.project-root-changed"@ ==> if data@.len() == 0 {
                &&& list is None
                &&& final(self).project_root is None
                &&& !final(self).loading
                &&& final(self).error matches Some(e) && e@ == "No project root found"@
                &&& final(self).active_file == old(self).active_file
            } else {
                &&& list == Some(data)
                &&& final(self).project_root == Some(data)
                &&& final(self).error is None
                &&& final(self).loading == old(self).loading
                &&& final(self).active_file == old(self).active_file
            },
            topic@ == "zed.active-file-changed"@ ==> {
                &&& list is None
                &&& final(self).active_file == (if data@.len() == 0 { None } else { Some(data) })
                &&& final(self).project_root == old(self).project_root
                &&& final(self).error == old(self).error
                &&& final(self).loading == old(self).loading
            },
            topic@ != "zed.project-root-changed"@ && topic@ != "zed.active-file-changed"@ ==> list is None
                && final(self).project_root == old(self).project_root && final(self).active_file
                == old(self).active_file && final(self).error == old(self).error && final(self).loading
                == old(self).loading,
            final(self).entries@ == old(self).entries@,
            final(self).collapsed_dirs@ == old(self).collapsed_dirs@,
    {
        proof {
            reveal_strlit("zed.project-root-changed");
            reveal_strlit("zed.active-file-changed");
            assert("zed.project-root-changed"@.len() != "zed.active-file-changed"@.len());
        }
        if str_eq(topic, "zed.project-root-changed") {
            if data.as_str().is_empty() {
                self.project_root = None;
                self.loading = false;
                self.error = Some("No project root found".to_owned());
                return None;
            }
            self.project_root = Some(data.clone());
            self.error = None;
            Some(data)
        } else if str_eq(topic, "zed.active-file-changed") {
            self.active_file = if data.as_str().is_empty() { None } else { Some(data) };
            None
        } else {
            None
        }
    }

    /// Where `path` is among the collapsed directories.
    fn collapsed_position(&self, path: &str) -> (r: Option<usize>)
        ensures
            r == (match position_of(self.collapsed_dirs@, path@, 0) {
                Some(p) => Some(p as usize),
                None => None::<usize>,
            }),
            r matches Some(p) ==> p < self.collapsed_dirs@.len(),
            position_of(self.collapsed_dirs@, path@, 0) matches Some(q) ==> 0 <= q < self.collapsed_dirs.len(),
    {
        proof {
            lemma_position_of_bounds(self.collapsed_dirs@, path@, 0);
        }
        let mut i: usize = 0;
        while i < self.collapsed_dirs.len()
            invariant
                i <= self.collapsed_dirs@.len(),
                position_of(self.collapsed_dirs@, path@, i as int) == position_of(self.collapsed_dirs@, path@, 0),
            decreases self.collapsed_dirs@.len() - i,
        {
            if str_eq(self.collapsed_dirs[i].as_str(), path) {
                return Some(i);
            }
            i += 1;
        }
        None
    }

    /// Handles a UI event. The refresh button lists the project again (an
    /// error when there is no root); a click on the row `entry-<i>` of a
    /// directory collapses or expands it, and on the row of a file asks the
    /// host to open it.
    pub fn gui_on_event(&mut self, source_id: &str) -> (step: ProjectStep)
        ensures
            final(self).project_root == old(self).project_root,
            final(self).active_file == old(self).active_file,
            final(self).entries@ == old(self).entries@,
            source_id@ == "refresh"@ ==> final(self).collapsed_dirs@ == old(self).collapsed_dirs@ && match old(self).project_root {
                Some(root) => step == ProjectStep::List(root) && final(self).loading && final(self).error is None,
                None => step is Done && !final(self).loading && (final(self).error matches Some(e) && e@ == "No project root"@),
            },
            source_id@ != "refresh"@ ==> final(self).loading == old(self).loading && final(self).error == old(self).error
                && match spec_parse_indexed_id(source_id@, "entry-"@) {
                    Some(i) if i < old(self).entries@.len() => {
                        let e = old(self).entries@[i as int];
                        match e.kind {
                            EntryKind::Directory => step is Done && crate::json::string_views(final(self).collapsed_dirs@)
                                == toggled(old(self).collapsed_dirs@, e.path),
                            EntryKind::File => final(self).collapsed_dirs@ == old(self).collapsed_dirs@
                                && (step matches ProjectStep::OpenFile(p) && p@ == spec_open_file_params(e.path@)),
                        }
                    },
                    _ => step is Done && final(self).collapsed_dirs@ == old(self).collapsed_dirs@,
                },
    {
        proof {
            reveal_strlit("refresh");
            reveal_strlit("entry-");
        }
        if str_eq(source_id, "refresh") {
            self.loading = true;
            self.error = None;
            return match &self.project_root {
                Some(root) => ProjectStep::List(root.clone()),
                None => {
                    self.loading = false;
                    self.error = Some("No project root".to_owned());
                    ProjectStep::Done
                },
            };
        }
        match parse_indexed_id(source_id, "entry-") {
            Some(i) => {
                if i < self.entries.len() {
                    let path = self.entries[i].path.clone();
                    match self.entries[i].kind {
                        EntryKind::Directory => {
                            let ghost before = self.collapsed_dirs@;
                            let ghost e = self.entries@[i as int];
                            assert(path == e.path);
                            match self.collapsed_position(path.as_str()) {
                                Some(p) => {
                                    self.collapsed_dirs.remove(p);
                                    assert(self.collapsed_dirs@ == before.remove(p as int));
                                    assert(position_of(before, e.path@, 0) == Some(p as int));
                                    assert(toggled(before, e.path) == crate::json::string_views(before.remove(p as int)));
                                },
                                None => {
                                    self.collapsed_dirs.push(path);
                                    assert(self.collapsed_dirs@ == before.push(e.path));
                                    assert(position_of(before, e.path@, 0) is None);
                                },
                            }
                            assert(crate::json::string_views(self.collapsed_dirs@) == toggled(before, e.path));
                            ProjectStep::Done
                        },
                        EntryKind::File => ProjectStep::OpenFile(open_file_params(path.as_str())),
                    }
                } else {
                    ProjectStep::Done
                }
            },
            None => ProjectStep::Done,
        }
    }

    /// Runs one of the panel's commands: only `open-panel` is known.
    pub fn run_extension_command(&self, command_id: &str) -> (r: Result<(), String>)
        ensures
            command_id@ == "open-panel"@ ==> r is Ok,
            command_id@ != "open-panel"@ ==> (r matches Err(e) && e@ == "unknown command: "@ + command_id@),
    {
        if str_eq(command_id, "open-panel") {
            Ok(())
        } else {
            Err(concat_str("unknown command: ", command_id))
        }
    }
}

/// Whether a directory among `dirs` other than the entry itself contains
/// the entry's path as a prefix, which hides the entry.
pub open spec fn hidden_by(dirs: Seq<String>, path: Seq<char>) -> bool {
    exists|k: int| 0 <= k < dirs.len() && starts_with(path, #[trigger] dirs[k]@) && path != dirs[k]@
}

/// Whether `path` is one of `dirs`.
pub open spec fn is_collapsed(dirs: Seq<String>, path: Seq<char>) -> bool {
    exists|k: int| 0 <= k < dirs.len() && #[trigger] dirs[k]@ == path
}

/// The rows the tree shows, from the `n` first entries: each entry not
/// hidden by a collapsed directory, with its index and whether it is
/// itself collapsed.
pub open spec fn visible_upto(entries: Seq<FileEntry>, dirs: Seq<String>, n: int) -> Seq<(usize, bool)>
    decreases n,
{
    if n <= 0 || n > entries.len() {
        Seq::empty()
    } else {
        visible_upto(entries, dirs, n - 1) + if hidden_by(dirs, entries[n - 1].path@) {
            Seq::empty()
        } else {
            seq![((n - 1) as usize, is_collapsed(dirs, entries[n - 1].path@))]
        }
    }
}

/// The rows the tree shows.
pub open spec fn spec_visible_entries(entries: Seq<FileEntry>, dirs: Seq<String>) -> Seq<(usize, bool)> {
    visible_upto(entries, dirs, entries.len() as int)
}

/// Whether a directory among `dirs` hides `path`.
fn is_hidden(dirs: &Vec<String>, path: &str) -> (r: bool)
    ensures
        r == hidden_by(dirs@, path@),
{
    let mut k: usize = 0;
    while k < dirs.len()
        invariant
            k <= dirs@.len(),
            forall|j: int| 0 <= j < k ==> !(starts_with(path@, #[trigger] dirs@[j]@) && path@ != dirs@[j]@),
        decreases dirs@.len() - k,
    {
        if str_starts_with(path, dirs[k].as_str()) && !str_eq(path, dirs[k].as_str()) {
            return true;
        }
        k += 1;
    }
    false
}

/// Whether `path` is one of `dirs`.
fn in_dirs(dirs: &Vec<String>, path: &str) -> (r: bool)
    ensures
        r == is_collapsed(dirs@, path@),
{
    let mut k: usize = 0;
    while k < dirs.len()
        invariant
            k <= dirs@.len(),
            forall|j: int| 0 <= j < k ==> #[trigger] dirs@[j]@ != path@,
        decreases dirs@.len() - k,
    {
        if str_eq(dirs[k].as_str(), path) {
            return true;
        }
        k += 1;
    }
    false
}

/// The rows the tree shows: the index of each entry that no collapsed
/// directory hides, and whether it is itself collapsed.
pub fn visible_entries(entries: &Vec<FileEntry>, dirs: &Vec<String>) -> (r: Vec<(usize, bool)>)
    ensures
        r@ == spec_visible_entries(entries@, dirs@),
{
    let mut r: Vec<(usize, bool)> = Vec::new();
    let mut i: usize = 0;
    while i < entries.len()
        invariant
            i <= entries@.len(),
            r@ == visible_upto(entries@, dirs@, i as int),
        decreases entries@.len() - i,
    {
        let path = entries[i].path.as_str();
        if !is_hidden(dirs, path) {
            let c = in_dirs(dirs, path);
            r.push((i, c));
        } else {
            assert(r@ =~= r@ + Seq::<(usize, bool)>::empty());
        }
        i += 1;
    }
    r
}

/// Whether an entry is the active file.
pub open spec fn is_active_entry(e: FileEntry, active_file: Option<Seq<char>>) -> bool {
    e.kind == EntryKind::File && active_file == Some(e.path@)
}

/// The texts of an entry's row: for a directory its collapse marker, then
/// its icon and name (in the accent color when it is the active file,
/// followed by a dot).
pub open spec fn entry_row_labels(e: FileEntry, collapsed: bool, active_file: Option<Seq<char>>) -> Seq<Shown> {
    let active = is_active_entry(e, active_file);
    (if e.kind == EntryKind::Directory {
        seq![(if collapsed { "▶"@ } else { "▼"@ }, Some(Color::TextMuted))]
    } else {
        Seq::empty()
    }) + seq![(spec_file_icon(e.kind, e.name@), None::<Color>), (e.name@, if active { Some(Color::Accent) } else { None::<Color> })]
        + if active { seq![("●"@, Some(Color::Accent))] } else { Seq::empty() }
}

/// The shape of an entry's row: a clickable row `entry-<index>` (on the
/// surface colour when it is the active file) holding a spacer as wide as
/// its depth (none at depth 0), the collapse marker of a directory or a
/// fixed spacer for a file, its icon and its name, and a dot for the active
/// file.
pub open spec fn entry_shape(e: FileEntry, index: nat, collapsed: bool, active_file: Option<Seq<char>>) -> Shape {
    let active = is_active_entry(e, active_file);
    let base = sv_cursor_pointer(sv_gap_x(sv_items_center(sv_py(sv_px_2(row_style()), Length::Px(F32_2))), DefiniteLength::Px(F32_6)));
    let st = if active { sv_bg(base, Color::SurfaceBackground) } else { base };
    let indent = e.depth * 16;
    let spacer = if indent > 0 {
        seq![plain(sv_w(no_style(), Length::Px(spec_small_int_f32(indent as nat))), seq![])]
    } else {
        Seq::empty()
    };
    let marker = match e.kind {
        EntryKind::Directory => seq![Shape::Text(if collapsed { "▶"@ } else { "▼"@ }, sv_muted(sv_text_xs(no_style())))],
        EntryKind::File => seq![plain(sv_w(no_style(), Length::Px(F32_12)), seq![])],
    };
    let name_style = if active { sv_color(sv_text_sm(no_style()), Color::Accent) } else { sv_text_sm(no_style()) };
    let tail = seq![
        Shape::Text(spec_file_icon(e.kind, e.name@), sv_text_sm(no_style())),
        Shape::Text(e.name@, name_style),
    ] + if active { seq![Shape::Text("●"@, sv_color(sv_text_xs(no_style()), Color::Accent))] } else { Seq::empty() };
    clickable("entry-"@ + decimal(index), st, spacer + marker + tail)
}

/// The shapes of the rows of the first `n` visible entries, in order.
pub open spec fn entry_rows_shapes(entries: Seq<FileEntry>, visible: Seq<(usize, bool)>, active_file: Option<Seq<char>>, n: int) -> Seq<Shape> {
    Seq::new(n as nat, |k: int| entry_shape(entries[visible[k].0 as int], visible[k].0 as nat, visible[k].1, active_file))
}

/// What the shape of the project panel's tree is known to be: the loading
/// notice; the error view; or, once entries are listed, the header and a
/// rule followed by exactly the rows of the visible entries.
pub open spec fn project_view_claims(p: ProjectPanel, s: Shape) -> bool {
    if p.loading {
        s == plain(sv_justify_center(sv_items_center(sv_size_full(column_style()))), seq![Shape::Text("Loading..."@, sv_muted(no_style()))])
    } else if p.error is Some {
        s == error_view_shape("Error: "@ + p.error->0@)
    } else {
        let vis = spec_visible_entries(p.entries@, p.collapsed_dirs@);
        let af = match p.active_file { Some(a) => Some(a@), None => None::<Seq<char>> };
        s == plain(sv_overflow_y_scroll(sv_size_full(column_style())), seq![project_header_shape(shown_root_name(p.project_root)), rule_shape()]
            + if p.entries@.len() == 0 {
                seq![plain(sv_py_2(sv_px_3(no_style())), seq![Shape::Text("No files found"@, sv_italic(sv_text_xs(sv_muted(no_style()))))])]
            } else {
                entry_rows_shapes(p.entries@, vis, af, vis.len() as int)
            })
    }
}

/// The shape of the project panel's header: the package marker and the
/// project's name on the left, the refresh button on the right.
#[verifier::opaque]
pub open spec fn project_header_shape(name: Seq<char>) -> Shape {
    let name_group = plain(sv_items_center(sv_gap_x(row_style(), DefiniteLength::Px(F32_6))), seq![
        Shape::Text("📦"@, sv_text_sm(no_style())),
        Shape::Text(name, sv_text_sm(sv_bold(no_style()))),
    ]);
    plain(sv_justify_between(sv_items_center(sv_py_2(sv_px_3(row_style())))), seq![name_group, refresh_button_shape()])
}

/// The project panel's header.
fn project_header(name: String, handlers: &mut HandlerRegistry<()>) -> (r: Div)
    ensures
        div_shape(r) == project_header_shape(name@),
        div_labels(r) == seq![("📦"@, None::<Color>), (name@, None::<Color>), ("↺"@, Some(Color::TextMuted))],
        inner_controls(r) == seq!["refresh"@],
        r.id is None,
        div_size(r) == 6,
        final(handlers)@ == old(handlers)@ + clicks(seq!["refresh"@]),
{
    proof {
        reveal(project_header_shape);
    }
    let ghost nv = name@;
    let name_group = h_flex().gap_x(DefiniteLength::Px(F32_6)).items_center();
    let l0 = Label::new("📦".to_owned()).text_sm();
    let l1 = Label::new(name).bold().text_sm();
    let ghost (a0, a1) = (label_shape(l0), label_shape(l1));
    let name_group = with_label(name_group, l0);
    let name_group = with_label(name_group, l1);
    assert(seq![].push(a0).push(a1) =~= seq![a0, a1]);
    let header = h_flex().px_3().py_2().items_center().justify_between();
    let ghost g0 = div_shape(name_group);
    let header = with_div(header, name_group);
    let header = with_div(header, refresh_button(handlers));
    assert(seq![].push(g0).push(refresh_button_shape()) =~= seq![g0, refresh_button_shape()]);
    assert(div_labels(header) =~= seq![("📦"@, None::<Color>), (nv, None::<Color>), ("↺"@, Some(Color::TextMuted))]);
    assert(inner_controls(header) =~= seq!["refresh"@]);
    header
}

/// An entry's row, indented by its depth; clicking it reports `entry-<index>`.
pub fn render_entry(entry: &FileEntry, index: usize, collapsed: bool, active_file: Option<&str>, handlers: &mut HandlerRegistry<()>) -> (r: Div)
    requires
        entry.depth < 0x10_0000,
    ensures
        div_labels(r) == entry_row_labels(*entry, collapsed, match active_file { Some(a) => Some(a@), None => None }),
        div_controls(r) == seq!["entry-"@ + decimal(index as nat)],
        div_size(r) <= 6,
        r.style.background == (if is_active_entry(*entry, match active_file { Some(a) => Some(a@), None => None }) {
            Some(Background::Color(Color::SurfaceBackground))
        } else {
            None::<Background>
        }),
        div_shape(r) == entry_shape(*entry, index as nat, collapsed, match active_file { Some(a) => Some(a@), None => None }),
        final(handlers)@ == old(handlers)@ + clicks(seq!["entry-"@ + decimal(index as nat)]),
{
    let ghost af = match active_file { Some(a) => Some(a@), None => None::<Seq<char>> };
    let ghost id = "entry-"@ + decimal(index as nat);
    let icon = file_icon(&entry.kind, entry.name.as_str());
    let indent = entry.depth * 16;
    let is_active = match entry.kind {
        EntryKind::File => match active_file {
            Some(a) => str_eq(a, entry.path.as_str()),
            None => false,
        },
        EntryKind::Directory => false,
    };
    assert(is_active == is_active_entry(*entry, af));
    let row = h_flex()
        .id(indexed_id("entry-", index))
        .px_2()
        .py(Length::Px(F32_2))
        .items_center()
        .gap_x(DefiniteLength::Px(F32_6))
        .cursor_pointer()
        .on_click((), handlers);
    let mut row = if is_active { row.bg(color_surface()) } else { row };
    let ghost st = shape_style(div_shape(row));
    let ghost mut cs: Seq<Shape> = seq![];
    assert(div_shape(row) == clickable(id, st, cs));
    let ghost start = row;
    if indent > 0 {
        let sp = div().w(Length::Px(small_int_f32(indent as u32)));
        proof {
            cs = cs.push(div_shape(sp));
        }
        row = with_div(row, sp);
    }
    let ghost c1 = cs;
    match entry.kind {
        EntryKind::Directory => {
            let marker = if collapsed { "▶" } else { "▼" };
            let l = Label::new(marker.to_owned()).text_xs().muted();
            proof {
                cs = cs.push(label_shape(l));
            }
            row = with_label(row, l);
        },
        EntryKind::File => {
            let sp = div().w(Length::Px(F32_12));
            proof {
                cs = cs.push(div_shape(sp));
            }
            row = with_div(row, sp);
        },
    }
    let ghost c2 = cs;
    assert(div_shape(row) == clickable(id, st, cs));
    let name_label = if is_active {
        Label::new(entry.name.clone()).text_sm().color(color_accent())
    } else {
        Label::new(entry.name.clone()).text_sm()
    };
    let icon_label = Label::new(icon.to_owned()).text_sm();
    proof {
        cs = cs.push(label_shape(icon_label)).push(label_shape(name_label));
    }
    row = with_label(row, icon_label);
    row = with_label(row, name_label);
    if is_active {
        let dot = Label::new("●".to_owned()).text_xs().color(color_accent());
        proof {
            cs = cs.push(label_shape(dot));
        }
        row = with_label(row, dot);
    }
    assert(div_shape(row) == clickable(id, st, cs));
    proof {
        let e = *entry;
        let indent_n = e.depth * 16;
        let spacer = if indent_n > 0 {
            seq![plain(sv_w(no_style(), Length::Px(spec_small_int_f32(indent_n as nat))), seq![])]
        } else {
            Seq::<Shape>::empty()
        };
        assert(c1 =~= spacer);
        let marker = match e.kind {
            EntryKind::Directory => seq![Shape::Text(if collapsed { "▶"@ } else { "▼"@ }, sv_muted(sv_text_xs(no_style())))],
            EntryKind::File => seq![plain(sv_w(no_style(), Length::Px(F32_12)), seq![])],
        };
        assert(c2 =~= spacer + marker);
        let name_style = if is_active { sv_color(sv_text_sm(no_style()), Color::Accent) } else { sv_text_sm(no_style()) };
        let tail = seq![
            Shape::Text(spec_file_icon(e.kind, e.name@), sv_text_sm(no_style())),
            Shape::Text(e.name@, name_style),
        ] + if is_active { seq![Shape::Text("●"@, sv_color(sv_text_xs(no_style()), Color::Accent))] } else { Seq::empty() };
        assert(cs =~= spacer + marker + tail);
    }
    assert(div_labels(row) =~= entry_row_labels(*entry, collapsed, af));
    assert(div_controls(row) =~= seq![id]);
    assert(final(handlers)@ =~= old(handlers)@ + clicks(seq![id]));
    row
}

/// The texts of the rows of the first `n` visible entries.
pub open spec fn entry_rows_labels(entries: Seq<FileEntry>, visible: Seq<(usize, bool)>, active_file: Option<Seq<char>>, n: int) -> Seq<Shown>
    decreases n,
{
    if n <= 0 || n > visible.len() {
        Seq::empty()
    } else {
        entry_rows_labels(entries, visible, active_file, n - 1) + entry_row_labels(entries[visible[n - 1].0 as int], visible[n - 1].1, active_file)
    }
}

/// The ids of the rows of the first `n` visible entries.
pub open spec fn entry_row_ids(visible: Seq<(usize, bool)>, n: int) -> Seq<Seq<char>> {
    Seq::new(n as nat, |k: int| "entry-"@ + decimal(visible[k].0 as nat))
}

/// The name shown for the project: the last component of its root, or
/// `Project`.
pub open spec fn shown_root_name(root: Option<String>) -> Seq<char> {
    match root {
        Some(r) => match path_file_name(r@) {
            Some(n) => n,
            None => "Project"@,
        },
        None => "Project"@,
    }
}

/// The last component of a path, as `Path::file_name` finds it, or `None`
/// (for a root or a path ending in `..`). Which characters separate
/// components depends on the target the crate is built for, so the name is
/// fixed for one build, not across targets.
pub uninterp spec fn path_file_name(path: Seq<char>) -> Option<Seq<char>>;

/// Calls `std::path::Path::file_name` on a path given as a string, and
/// turns the component back into a string (always possible for a path
/// made from a string); within one build the result depends on the path
/// alone.
#[verifier::external_body]
fn file_name_of(path: &str) -> (r: Option<String>)
    ensures
        match r {
            Some(n) => path_file_name(path@) == Some(n@),
            None => path_file_name(path@) is None,
        },
{
    std::path::Path::new(path).file_name().and_then(|n| n.to_str()).map(|n| n.to_owned())
}

/// What the project panel shows: a notice while loading; the error with a
/// retry button; or the project's name with a refresh button, and a row per
/// visible entry (or a notice when there are none).
pub open spec fn project_labels(p: ProjectPanel) -> Seq<Shown> {
    if p.loading {
        seq![("Loading..."@, Some(Color::TextMuted))]
    } else if p.error is Some {
        seq![("Error: "@ + p.error->0@, Some(Color::StatusError)), ("Retry"@, None::<Color>)]
    } else {
        seq![("📦"@, None::<Color>), (shown_root_name(p.project_root), None::<Color>), ("↺"@, Some(Color::TextMuted))]
            + if p.entries@.len() == 0 {
            seq![("No files found"@, Some(Color::TextMuted))]
        } else {
            let visible = spec_visible_entries(p.entries@, p.collapsed_dirs@);
            entry_rows_labels(p.entries@, visible, match p.active_file { Some(a) => Some(a@), None => None }, visible.len() as int)
        }
    }
}

/// The controls of the project panel, which are also the order in which a
/// render registers its click handlers.
pub open spec fn project_controls(p: ProjectPanel) -> Seq<Seq<char>> {
    if p.loading {
        Seq::empty()
    } else if p.error is Some {
        seq!["refresh"@]
    } else if p.entries@.len() == 0 {
        seq!["refresh"@]
    } else {
        let visible = spec_visible_entries(p.entries@, p.collapsed_dirs@);
        seq!["refresh"@] + entry_row_ids(visible, visible.len() as int)
    }
}

pub proof fn lemma_visible_upto_bounds(entries: Seq<FileEntry>, dirs: Seq<String>, n: int)
    requires
        0 <= n <= entries.len(),
    ensures
        visible_upto(entries, dirs, n).len() <= n,
        forall|k: int| 0 <= k < visible_upto(entries, dirs, n).len() ==> (#[trigger] visible_upto(entries, dirs, n)[k]).0 < n,
    decreases n,
{
    if n > 0 {
        lemma_visible_upto_bounds(entries, dirs, n - 1);
    }
}

impl ProjectPanel {
    /// The panel's element tree for its current state.
    pub fn view(&self, handlers: &mut HandlerRegistry<()>) -> (r: Div)
        requires
            forall|k: int| 0 <= k < self.entries@.len() ==> (#[trigger] self.entries@[k]).depth < 0x10_0000,
            self.entries@.len() < 0x1000_0000,
        ensures
            div_labels(r) == project_labels(*self),
            div_controls(r) == project_controls(*self),
            div_size(r) <= 10 + 6 * self.entries@.len(),
            project_view_claims(*self, div_shape(r)),
            final(handlers)@ == old(handlers)@ + clicks(project_controls(*self)),
    {
        if self.loading {
            let r = v_flex().size_full().items_center().justify_center();
            let l = Label::new("Loading...".to_owned()).muted();
            let ghost ls = label_shape(l);
            let r = with_label(r, l);
            assert(seq![].push(ls) =~= seq![ls]);
            assert(div_controls(r) =~= project_controls(*self));
            assert(old(handlers)@ + clicks(project_controls(*self)) =~= old(handlers)@);
            return r;
        }
        match &self.error {
            Some(err) => {
                return error_view(concat_str("Error: ", err.as_str()), handlers);
            },
            None => {},
        }
        let root_name = match &self.project_root {
            Some(p) => match file_name_of(p.as_str()) {
                Some(n) => n,
                None => "Project".to_owned(),
            },
            None => "Project".to_owned(),
        };
        assert(root_name@ == shown_root_name(self.project_root));
        let header = project_header(root_name, handlers);
        let ghost hs = div_shape(header);
        let root = v_flex().size_full().overflow_y_scroll();
        let root = with_div(root, header);
        let ghost r0 = root;
        let mut root = with_div(root, rule());
        let ghost head_labels = div_labels(root);
        let ghost head_shapes = children_of(div_shape(root));
        proof {
            lemma_div_shape_is_node(r0);
            lemma_div_shape_is_node(root);
        }
        assert(seq![].push(hs).push(rule_shape()) =~= seq![hs, rule_shape()]);
        assert(head_shapes == seq![project_header_shape(shown_root_name(self.project_root)), rule_shape()]);
        assert(head_labels =~= seq![("📦"@, None::<Color>), (shown_root_name(self.project_root), None::<Color>), ("↺"@, Some(Color::TextMuted))]);
        assert(inner_controls(root) =~= seq!["refresh"@]);
        let ghost h1 = handlers@;
        if self.entries.len() == 0 {
            let notice = div().px_3().py_2();
            let l = Label::new("No files found".to_owned()).muted().text_xs().italic();
            let ghost a = label_shape(l);
            let notice = with_label(notice, l);
            assert(seq![].push(a) =~= seq![a]);
            let ghost ns = div_shape(notice);
            root = with_div(root, notice);
            assert(head_shapes.push(ns) =~= head_shapes + seq![ns]);
            assert(div_labels(root) =~= project_labels(*self));
            assert(div_controls(root) =~= inner_controls(root));
            assert(div_controls(root) =~= project_controls(*self));
        } else {
            let visible = visible_entries(&self.entries, &self.collapsed_dirs);
            let ghost vis = visible@;
            let ghost af = match &self.active_file { Some(a) => Some(a@), None => None::<Seq<char>> };
            proof {
                lemma_visible_upto_bounds(self.entries@, self.collapsed_dirs@, self.entries@.len() as int);
            }
            let active = match &self.active_file {
                Some(a) => Some(a.as_str()),
                None => None,
            };
            let mut k: usize = 0;
            assert(head_shapes + entry_rows_shapes(self.entries@, vis, af, 0) =~= head_shapes);
            assert(div_shape(root) == plain(sv_overflow_y_scroll(sv_size_full(column_style())), head_shapes));
            while k < visible.len()
                invariant
                    vis == visible@,
                    vis == spec_visible_entries(self.entries@, self.collapsed_dirs@),
                    vis.len() <= self.entries@.len(),
                    forall|j: int| 0 <= j < vis.len() ==> (#[trigger] vis[j]).0 < self.entries@.len(),
                    forall|j: int| 0 <= j < self.entries@.len() ==> (#[trigger] self.entries@[j]).depth < 0x10_0000,
                    self.entries@.len() < 0x1000_0000,
                    af == (match active { Some(a) => Some(a@), None => None::<Seq<char>> }),
                    k <= vis.len(),
                    root.id is None,
                    div_labels(root) == head_labels + entry_rows_labels(self.entries@, vis, af, k as int),
                    inner_controls(root) == seq!["refresh"@] + entry_row_ids(vis, k as int),
                    div_size(root) <= 8 + 6 * k,
                    handlers@ == h1 + clicks(entry_row_ids(vis, k as int)),
                    div_shape(root) == plain(sv_overflow_y_scroll(sv_size_full(column_style())), head_shapes + entry_rows_shapes(self.entries@, vis, af, k as int)),
                decreases vis.len() - k,
            {
                let (i, collapsed) = visible[k];
                let row = render_entry(&self.entries[i], i, collapsed, active, handlers);
                let ghost before = root;
                root = with_div(root, row);
                proof {
                    assert(entry_rows_shapes(self.entries@, vis, af, k + 1) =~= entry_rows_shapes(self.entries@, vis, af, k as int).push(div_shape(row)));
                    assert(entry_row_ids(vis, k + 1) =~= entry_row_ids(vis, k as int).push("entry-"@ + decimal(i as nat)));
                    assert(div_labels(root) =~= head_labels + entry_rows_labels(self.entries@, vis, af, k + 1));
                    assert(inner_controls(root) =~= seq!["refresh"@] + entry_row_ids(vis, k + 1));
                    assert(clicks(entry_row_ids(vis, k + 1)) =~= clicks(entry_row_ids(vis, k as int)) + clicks(seq!["entry-"@ + decimal(i as nat)]));
                }
                k += 1;
            }
            assert(div_labels(root) =~= project_labels(*self));
            assert(div_controls(root) =~= inner_controls(root));
            assert(div_controls(root) =~= project_controls(*self));
            assert(clicks(seq!["refresh"@] + entry_row_ids(vis, vis.len() as int)) =~= clicks(seq!["refresh"@]) + clicks(entry_row_ids(vis, vis.len() as int)));
        }
        assert(handlers@ =~= old(handlers)@ + clicks(project_controls(*self)));
        root
    }

    /// Renders the panel: clears the handlers of the previous render and
    /// flattens the panel's element tree.
    pub fn gui_render(&self, handlers: &mut HandlerRegistry<()>) -> (tree: UiTree)
        requires
            forall|k: int| 0 <= k < self.entries@.len() ==> (#[trigger] self.entries@[k]).depth < 0x10_0000,
            self.entries@.len() < 0x1000_0000,
        ensures
            tree_well_formed(tree),
            tree.root == 0,
            exists|v: Div| #[trigger] is_flat(tree.nodes@, 0, AnyNode::Div(v)) && div_labels(v) == project_labels(*self)
                && div_controls(v) == project_controls(*self) && project_view_claims(*self, div_shape(v)),
            final(handlers)@ == clicks(project_controls(*self)),
    {
        handlers.clear_handlers();
        let v = self.view(handlers);
        let ghost gv = v;
        assert(Seq::<(Seq<char>, HandlerKind, ())>::empty() + clicks(project_controls(*self)) =~= clicks(project_controls(*self)));
        let tree = render_tree(v);
        assert(is_flat(tree.nodes@, 0, AnyNode::Div(gv)));
        tree
    }
}

/// What an entry records: name, path, kind and depth.
pub open spec fn project_entry_view(e: FileEntry) -> (Seq<char>, Seq<char>, EntryKind, usize) {
    (e.name@, e.path@, e.kind, e.depth)
}

/// `s` without leading `/` characters.
pub open spec fn trim_leading_slashes(s: Seq<char>) -> Seq<char>
    decreases s.len(),
{
    if s.len() > 0 && s[0] == '/' {
        trim_leading_slashes(s.drop_first())
    } else {
        s
    }
}

/// The number of `/` characters in `s`.
pub open spec fn slash_count(s: Seq<char>) -> nat
    decreases s.len(),
{
    if s.len() == 0 {
        0
    } else {
        slash_count(s.drop_last()) + if s.last() == '/' { 1nat } else { 0nat }
    }
}

/// How deep a path lies below the root: the path with the root (when it
/// starts with it) and leading slashes removed is split at `/`, and the
/// depth is the number of parts less one, or 0 when nothing is left.
pub open spec fn spec_depth(root: Seq<char>, path: Seq<char>) -> nat {
    let rest = if starts_with(path, root) { path.skip(root.len() as int) } else { path };
    let relative = trim_leading_slashes(rest);
    if relative.len() == 0 { 0 } else { slash_count(relative) }
}

/// The entry a line of `find`'s output names, if it is kept: the trimmed
/// path, unless empty or its last component is one that is skipped.
pub open spec fn entry_of_line(root: Seq<char>, line: Seq<char>, kind: EntryKind) -> Option<(Seq<char>, Seq<char>, EntryKind, usize)> {
    let path = crate::strings::trimmed(line);
    let name = after_last_slash(path);
    if path.len() == 0 || spec_should_skip(name) {
        None
    } else {
        Some((name, path, kind, spec_depth(root, path) as usize))
    }
}

/// The entries of the first `n` lines.
pub open spec fn entries_upto(root: Seq<char>, lines: Seq<Seq<char>>, kind: EntryKind, n: int) -> Seq<(Seq<char>, Seq<char>, EntryKind, usize)>
    decreases n,
{
    if n <= 0 || n > lines.len() {
        Seq::empty()
    } else {
        entries_upto(root, lines, kind, n - 1) + match entry_of_line(root, lines[n - 1], kind) {
            Some(e) => seq![e],
            None => Seq::empty(),
        }
    }
}

/// The entries that `find`'s output lists for one kind, in its order.
pub open spec fn spec_found_entries(root: Seq<char>, output: Seq<char>, kind: EntryKind) -> Seq<(Seq<char>, Seq<char>, EntryKind, usize)> {
    entries_upto(root, crate::strings::lines_of(output), kind, crate::strings::lines_of(output).len() as int)
}

/// The views of a list of entries.
pub open spec fn project_entry_views(v: Seq<FileEntry>) -> Seq<(Seq<char>, Seq<char>, EntryKind, usize)> {
    v.map_values(|e: FileEntry| project_entry_view(e))
}

/// The depth of `path` below `root`.
fn depth_of(root: &str, path: &[char]) -> (r: usize)
    ensures
        r == spec_depth(root@, path@),
{
    let root_chars = chars_of(root);
    let rest = if crate::strings::starts_with_chars(path, root_chars.as_slice()) {
        crate::strings::skip_chars(path, root_chars.len())
    } else {
        crate::strings::skip_chars(path, 0)
    };
    assert(path@.skip(0) =~= path@);
    let mut i: usize = 0;
    assert(rest@.skip(0) =~= rest@);
    while i < rest.len() && rest[i] == '/'
        invariant
            i <= rest@.len(),
            trim_leading_slashes(rest@.skip(i as int)) == trim_leading_slashes(rest@),
        decreases rest@.len() - i,
    {
        assert(rest@.skip(i as int).drop_first() =~= rest@.skip(i + 1));
        i += 1;
    }
    let ghost relative = rest@.skip(i as int);
    assert(trim_leading_slashes(relative) == relative);
    let mut count: usize = 0;
    let mut k: usize = i;
    while k < rest.len()
        invariant
            i <= k <= rest@.len(),
            relative == rest@.skip(i as int),
            count == slash_count(rest@.subrange(i as int, k as int)),
            count <= k - i,
        decreases rest@.len() - k,
    {
        assert(rest@.subrange(i as int, k + 1).drop_last() =~= rest@.subrange(i as int, k as int));
        if rest[k] == '/' {
            count += 1;
        }
        k += 1;
    }
    assert(rest@.subrange(i as int, k as int) =~= relative);
    count
}

/// Reads the output of `find` for one kind of entry: each line names a
/// path; empty lines and skipped names are left out.
pub fn found_entries(root: &str, output: &str, kind: EntryKind) -> (r: Vec<FileEntry>)
    ensures
        project_entry_views(r@) == spec_found_entries(root@, output@, kind),
{
    let lines = crate::strings::split_lines(output);
    let ghost ls = crate::strings::lines_of(output@);
    let mut r: Vec<FileEntry> = Vec::new();
    let mut i: usize = 0;
    while i < lines.len()
        invariant
            ls == crate::strings::lines_of(output@),
            lines@.len() == ls.len(),
            forall|k: int| 0 <= k < lines@.len() ==> #[trigger] lines@[k]@ == ls[k],
            i <= lines@.len(),
            project_entry_views(r@) == entries_upto(root@, ls, kind, i as int),
        decreases lines@.len() - i,
    {
        let path_chars = crate::strings::trim_chars(lines[i].as_slice());
        assert(lines@[i as int]@ == ls[i as int]);
        let ghost before = r@;
        if path_chars.len() > 0 {
            let name_chars = crate::strings::after_last_slash_chars(path_chars.as_slice());
            let name = crate::text::string_from_chars(name_chars.as_slice());
            if !should_skip(name.as_str()) {
                let depth = depth_of(root, path_chars.as_slice());
                let path = crate::text::string_from_chars(path_chars.as_slice());
                r.push(FileEntry { name, path, kind, depth });
                assert(project_entry_views(r@) =~= project_entry_views(before) + seq![(name_chars@, path_chars@, kind, depth)]);
            } else {
                assert(project_entry_views(r@) =~= project_entry_views(before) + Seq::empty());
            }
        } else {
            assert(project_entry_views(r@) =~= project_entry_views(before) + Seq::empty());
        }
        i += 1;
    }
    r
}

/// Directories come before files.
pub open spec fn kind_rank(k: EntryKind) -> int {
    match k {
        EntryKind::Directory => 0,
        EntryKind::File => 1,
    }
}

/// Whether `a` comes strictly before `b` in the order of `String`: the
/// first differing character decides, and a proper prefix comes first.
pub open spec fn path_lt(a: Seq<char>, b: Seq<char>) -> bool
    decreases a.len(),
{
    if a.len() == 0 {
        b.len() > 0
    } else if b.len() == 0 {
        false
    } else if a[0] != b[0] {
        (a[0] as u32) < (b[0] as u32)
    } else {
        path_lt(a.drop_first(), b.drop_first())
    }
}

/// The listing's order: directories first, then by path.
pub open spec fn entry_lt(a: FileEntry, b: FileEntry) -> bool {
    kind_rank(a.kind) < kind_rank(b.kind) || (kind_rank(a.kind) == kind_rank(b.kind) && path_lt(a.path@, b.path@))
}

/// A list in the listing's order.
pub open spec fn entries_sorted(v: Seq<FileEntry>) -> bool {
    forall|i: int, j: int| 0 <= i < j < v.len() ==> !entry_lt(#[trigger] v[j], #[trigger] v[i])
}

pub proof fn lemma_path_lt_irreflexive(a: Seq<char>)
    ensures
        !path_lt(a, a),
    decreases a.len(),
{
    if a.len() > 0 {
        lemma_path_lt_irreflexive(a.drop_first());
    }
}

pub proof fn lemma_path_lt_transitive(a: Seq<char>, b: Seq<char>, c: Seq<char>)
    requires
        path_lt(a, b),
        path_lt(b, c),
    ensures
        path_lt(a, c),
    decreases a.len(),
{
    if a.len() > 0 && b.len() > 0 && c.len() > 0 && a[0] == b[0] && b[0] == c[0] {
        lemma_path_lt_transitive(a.drop_first(), b.drop_first(), c.drop_first());
    }
}

pub proof fn lemma_path_lt_total(a: Seq<char>, b: Seq<char>)
    ensures
        path_lt(a, b) || path_lt(b, a) || a == b,
    decreases a.len(),
{
    if a.len() > 0 && b.len() > 0 && a[0] == b[0] {
        lemma_path_lt_total(a.drop_first(), b.drop_first());
        if a.drop_first() == b.drop_first() {
            assert(a =~= seq![a[0]] + a.drop_first());
            assert(b =~= seq![b[0]] + b.drop_first());
        }
    } else if a.len() > 0 && b.len() > 0 {
        vstd::utf8::char_u32_cast(a[0], a[0] as u32);
        vstd::utf8::char_u32_cast(b[0], b[0] as u32);
        assert((a[0] as u32) != (b[0] as u32));
    } else if a.len() == 0 && b.len() == 0 {
        assert(a =~= b);
    }
}

/// `a` before `b` and `b` not after `c` puts `a` before `c`.
pub proof fn lemma_entry_lt_le(a: FileEntry, b: FileEntry, c: FileEntry)
    requires
        entry_lt(a, b),
        !entry_lt(c, b),
    ensures
        entry_lt(a, c),
{
    lemma_path_lt_total(b.path@, c.path@);
    if kind_rank(a.kind) == kind_rank(b.kind) && kind_rank(b.kind) == kind_rank(c.kind) {
        if path_lt(b.path@, c.path@) {
            lemma_path_lt_transitive(a.path@, b.path@, c.path@);
        }
    }
}

/// Whether `a` comes strictly before `b`, character by character.
fn path_less(a: &[char], b: &[char]) -> (r: bool)
    ensures
        r == path_lt(a@, b@),
{
    let mut i: usize = 0;
    assert(a@.skip(0) =~= a@);
    assert(b@.skip(0) =~= b@);
    while i < a.len() && i < b.len() && a[i] == b[i]
        invariant
            i <= a@.len(),
            i <= b@.len(),
            path_lt(a@.skip(i as int), b@.skip(i as int)) == path_lt(a@, b@),
        decreases a@.len() - i,
    {
        assert(a@.skip(i as int).drop_first() =~= a@.skip(i + 1));
        assert(b@.skip(i as int).drop_first() =~= b@.skip(i + 1));
        i += 1;
    }
    if i == a.len() {
        i < b.len()
    } else if i == b.len() {
        false
    } else {
        assert(a@.skip(i as int)[0] == a@[i as int]);
        assert(b@.skip(i as int)[0] == b@[i as int]);
        (a[i] as u32) < (b[i] as u32)
    }
}

/// Whether entry `a` comes strictly before entry `b`.
fn entry_less(a: &FileEntry, b: &FileEntry) -> (r: bool)
    ensures
        r == entry_lt(*a, *b),
{
    let ra: u8 = match a.kind {
        EntryKind::Directory => 0,
        EntryKind::File => 1,
    };
    let rb: u8 = match b.kind {
        EntryKind::Directory => 0,
        EntryKind::File => 1,
    };
    if ra != rb {
        return ra < rb;
    }
    let pa = chars_of(a.path.as_str());
    let pb = chars_of(b.path.as_str());
    path_less(pa.as_slice(), pb.as_slice())
}

/// Puts entries in the listing's order, directories first and then by
/// path, keeping entries that compare equal in their order.
pub fn sort_entries(entries: Vec<FileEntry>) -> (r: Vec<FileEntry>)
    ensures
        entries_sorted(r@),
        r@.to_multiset() == entries@.to_multiset(),
{
    let mut out: Vec<FileEntry> = Vec::new();
    let mut rest = entries;
    let ghost all = rest@;
    let n = rest.len();
    let mut k: usize = 0;
    assert(out@ =~= all.take(0));
    assert(rest@ =~= all.skip(0));
    while k < n
        invariant
            n == all.len(),
            k <= n,
            rest@ == all.skip(k as int),
            entries_sorted(out@),
            out@.to_multiset() == all.take(k as int).to_multiset(),
        decreases n - k,
    {
        let e = rest.remove(0);
        assert(e == all[k as int]);
        assert(rest@ =~= all.skip(k + 1));
        let mut p: usize = 0;
        while p < out.len() && !entry_less(&e, &out[p])
            invariant
                p <= out@.len(),
                forall|i: int| 0 <= i < p ==> !entry_lt(e, #[trigger] out@[i]),
            decreases out@.len() - p,
        {
            p += 1;
        }
        let ghost before = out@;
        out.insert(p, e);
        proof {
            assert(out@ == before.insert(p as int, e));
            assert forall|i: int, j: int| 0 <= i < j < out@.len() implies !entry_lt(#[trigger] out@[j], #[trigger] out@[i]) by {
                if j < p {
                    assert(out@[i] == before[i] && out@[j] == before[j]);
                } else if j == p {
                    assert(out@[i] == before[i]);
                    assert(out@[j] == e);
                } else if i < p {
                    assert(out@[i] == before[i]);
                    assert(out@[j] == before[j - 1]);
                    if i < j - 1 {
                    }
                } else if i == p {
                    assert(out@[i] == e);
                    assert(out@[j] == before[j - 1]);
                    assert(entry_lt(e, before[p as int]));
                    if j - 1 > p {
                        assert(!entry_lt(before[j - 1], before[p as int]));
                    } else {
                        lemma_path_lt_irreflexive(before[p as int].path@);
                    }
                    lemma_entry_lt_le(e, before[p as int], before[j - 1]);
                    lemma_path_lt_total(e.path@, before[j - 1].path@);
                    if entry_lt(before[j - 1], e) {
                        if kind_rank(e.kind) == kind_rank(before[j - 1].kind) {
                            lemma_path_lt_transitive(e.path@, before[j - 1].path@, e.path@);
                            lemma_path_lt_irreflexive(e.path@);
                        }
                    }
                } else {
                    assert(out@[i] == before[i - 1]);
                    assert(out@[j] == before[j - 1]);
                }
            }
            assert(all.take(k + 1) =~= all.take(k as int).push(e));
            vstd::seq_lib::to_multiset_insert(before, p as int, e);
            assert(all.take(k + 1).to_multiset() =~= all.take(k as int).to_multiset().insert(e)) by {
                broadcast use vstd::multiset::group_multiset_axioms, vstd::seq_lib::group_to_multiset_ensures;
            }
        }
        k += 1;
    }
    assert(all.take(n as int) =~= all);
    out
}

/// The project's entries from `find`'s output for directories and for
/// files: the directories, then the files, put in the listing's order.
pub fn list_entries(root: &str, directories_output: &str, files_output: &str) -> (r: Vec<FileEntry>)
    ensures
        entries_sorted(r@),
        project_entry_views(r@).to_multiset() == (spec_found_entries(root@, directories_output@, EntryKind::Directory)
            + spec_found_entries(root@, files_output@, EntryKind::File)).to_multiset(),
{
    let mut all = found_entries(root, directories_output, EntryKind::Directory);
    let mut files = found_entries(root, files_output, EntryKind::File);
    let ghost d = all@;
    let ghost f = files@;
    all.append(&mut files);
    assert(all@ == d + f);
    let sorted = sort_entries(all);
    proof {
        lemma_views_multiset(sorted@, d + f);
        assert(project_entry_views(d + f) =~= project_entry_views(d) + project_entry_views(f));
    }
    sorted
}

/// Lists with the same elements have views with the same elements.
pub proof fn lemma_views_multiset(a: Seq<FileEntry>, b: Seq<FileEntry>)
    requires
        a.to_multiset() == b.to_multiset(),
    ensures
        project_entry_views(a).to_multiset() == project_entry_views(b).to_multiset(),
    decreases a.len(),
{
    broadcast use vstd::seq_lib::group_to_multiset_ensures, vstd::multiset::group_multiset_axioms;

    if a.len() == 0 {
        assert(b.len() == a.to_multiset().len());
        assert(project_entry_views(a) =~= Seq::empty());
        assert(project_entry_views(b) =~= Seq::empty());
    } else {
        let x = a.last();
        let a1 = a.drop_last();
        assert(a =~= a1.push(x));
        assert(a.to_multiset().contains(x));
        assert(b.to_multiset().contains(x));
        let i = choose|i: int| 0 <= i < b.len() && b[i] == x;
        let b1 = b.remove(i);
        assert(b1.to_multiset() == b.to_multiset().remove(x));
        assert(a1.to_multiset() =~= a.to_multiset().remove(x));
        lemma_views_multiset(a1, b1);
        assert(project_entry_views(a) =~= project_entry_views(a1).push(project_entry_view(x)));
        assert(b =~= b1.insert(i, x));
        assert(project_entry_views(b) =~= project_entry_views(b1).insert(i, project_entry_view(x)));
    }
}

/// The project's listing from what `find` printed for its directories and
/// for its files, or the first error: the files are only listed when the
/// directories could be.
pub fn list_directory(root: &str, directories_output: Result<String, String>, files_output: Result<String, String>) -> (r: Result<Vec<FileEntry>, String>)
    ensures
        match directories_output {
            Err(e) => r == Err::<Vec<FileEntry>, String>(e),
            Ok(d) => match files_output {
                Err(e) => r == Err::<Vec<FileEntry>, String>(e),
                Ok(f) => r matches Ok(v) && entries_sorted(v@) && project_entry_views(v@).to_multiset() == (
                    spec_found_entries(root@, d@, EntryKind::Directory) + spec_found_entries(root@, f@, EntryKind::File)).to_multiset(),
            },
        },
{
    match directories_output {
        Err(e) => Err(e),
        Ok(d) => match files_output {
            Err(e) => Err(e),
            Ok(f) => Ok(list_entries(root, d.as_str(), f.as_str())),
        },
    }
}

} // verus!
