//! The git demo panel: reads `git status --porcelain=v1`, lists staged and
//! unstaged files, and turns clicks into the git commands to run.
use vstd::prelude::*;
use vstd::string::StringSliceAdditionalSpecFns;
use vstd::utf8::{decode_utf8, encode_utf8, is_char_boundary};
use crate::elements::{Color, DefiniteLength, Length, UiTree, F32_0, F32_1, F32_2, F32_3, F32_4, F32_6, F32_8};
use crate::events::{HandlerKind, HandlerRegistry};
use crate::flatten::{is_flat, render_tree, tree_well_formed};
use crate::strings::{after_last_slash, after_last_slash_chars};
use crate::ui::{color_background, color_border, color_muted, color_surface, div, h_flex, v_flex, AnyNode, Div, Input, Label};
use crate::elements::opt_text;
use crate::shape::{
    push_shapes, StyleV, sv_justify_between, sv_justify_end, sv_overflow_y_scroll, sv_py_1, sv_italic, sv_rounded_full, sv_px, sv_flex_1, sv_min_w, sv_overflow_x_hidden, sv_px_3, sv_single_line, children_of, lemma_div_shape_is_node, clickable, column_style, div_shape, no_style, plain, row_style, style_v, Shape, sv_bg, sv_bold,
    sv_border_1, sv_border_color, sv_color, sv_cursor_pointer, sv_gap_x, sv_gap_y, sv_items_center,
    sv_justify_center, sv_muted, sv_p_2, sv_p_3, sv_px_2, sv_py, sv_py_2, sv_rounded_md, sv_rounded_sm,
    sv_size_full, sv_text_color, sv_text_sm, sv_text_xs, sv_w_full,
};
use crate::elements::spec_empty_events;
use crate::view::{divs_shapes, refresh_button_shape, rule_shape, error_view_shape, label_shape, clicks, div_controls, div_labels, div_size, divs_controls, divs_labels, divs_size, error_view, inner_controls, refresh_button, rule, with_div, with_divs, with_input, with_label, Shown};
use crate::events::UiEvent;
use crate::json::{json_parse_string_list, parse_json_string_list, string_views};
use crate::strings::{lines_of, split_lines};
use crate::text::{
    chars_of, concat_str, decimal, indexed_id, parse_usize, parse_usize_chars, string_from_chars, str_eq,
    usize_to_string,
};
use crate::ui::{color_accent, color_error, color_success, color_warning};

verus! {

broadcast use vstd::string::group_string_axioms, vstd::utf8::encode_utf8_decode_utf8;

/// How a file differs from the index or the last commit.
#[derive(Clone, Copy, PartialEq, Eq, Structural, Debug)]
pub enum FileStatus {
    Added,
    Modified,
    Deleted,
    Renamed,
}

/// The one-letter tag of each status.
pub open spec fn spec_status_label(s: FileStatus) -> Seq<char> {
    match s {
        FileStatus::Added => "A"@,
        FileStatus::Modified => "M"@,
        FileStatus::Deleted => "D"@,
        FileStatus::Renamed => "R"@,
    }
}

/// The color of each status's tag.
pub open spec fn spec_status_color(s: FileStatus) -> Color {
    match s {
        FileStatus::Added => Color::StatusSuccess,
        FileStatus::Modified => Color::StatusWarning,
        FileStatus::Deleted => Color::StatusError,
        FileStatus::Renamed => Color::Accent,
    }
}

impl FileStatus {
    /// The one-letter tag of the status.
    pub fn label(&self) -> (r: &'static str)
        ensures
            r@ == spec_status_label(*self),
    {
        match self {
            FileStatus::Added => "A",
            FileStatus::Modified => "M",
            FileStatus::Deleted => "D",
            FileStatus::Renamed => "R",
        }
    }

    /// The color of the status's tag.
    pub fn color(&self) -> (r: Color)
        ensures
            r == spec_status_color(*self),
    {
        match self {
            FileStatus::Added => color_success(),
            FileStatus::Modified => color_warning(),
            FileStatus::Deleted => color_error(),
            FileStatus::Renamed => color_accent(),
        }
    }
}

/// The status a porcelain status letter stands for: `A` added, `D` deleted,
/// `R` and `C` renamed (or copied), anything else modified.
pub open spec fn spec_char_to_status(c: char) -> FileStatus {
    if c == 'A' {
        FileStatus::Added
    } else if c == 'D' {
        FileStatus::Deleted
    } else if c == 'R' || c == 'C' {
        FileStatus::Renamed
    } else {
        FileStatus::Modified
    }
}

/// The status of a porcelain status letter.
pub fn char_to_status(c: char) -> (r: FileStatus)
    ensures
        r == spec_char_to_status(c),
{
    match c {
        'A' => FileStatus::Added,
        'D' => FileStatus::Deleted,
        'R' | 'C' => FileStatus::Renamed,
        _ => FileStatus::Modified,
    }
}

/// A changed file.
#[derive(Clone, Debug)]
pub struct FileEntry {
    pub path: String,
    pub status: FileStatus,
}

/// What an entry records: its path and status.
pub open spec fn entry_view(e: FileEntry) -> (Seq<char>, FileStatus) {
    (e.path@, e.status)
}

/// The views of a list of entries.
pub open spec fn entry_views(v: Seq<FileEntry>) -> Seq<(Seq<char>, FileStatus)> {
    v.map_values(|e: FileEntry| entry_view(e))
}

/// Index of the first `" -> "` in `s` at or after `i`, if any.
pub open spec fn find_arrow(s: Seq<char>, i: int) -> Option<int>
    decreases s.len() - i,
{
    if i < 0 || i + 4 > s.len() {
        None
    } else if s.subrange(i, i + 4) == " -> "@ {
        Some(i)
    } else {
        find_arrow(s, i + 1)
    }
}

/// The path a status line names after its two status letters and the
/// space: for a rename `old -> new`, the new path.
pub open spec fn porcelain_path(rest: Seq<char>) -> Seq<char> {
    match find_arrow(rest, 0) {
        Some(i) => rest.skip(i + 4),
        None => rest,
    }
}

/// The byte of a status line read as a character, as `byte as char` does.
pub open spec fn byte_char(b: u8) -> char {
    b as char
}

/// A status line can be read: when it has three bytes or more, its third
/// byte ends a character, so that the path can be cut after it.
pub open spec fn porcelain_line_ok(line: Seq<char>) -> bool {
    encode_utf8(line).len() >= 3 ==> is_char_boundary(encode_utf8(line), 3)
}

/// What one status line adds to the staged and to the unstaged list. Lines
/// of fewer than three bytes add nothing; `??` marks an untracked file,
/// listed as unstaged and added; otherwise the first letter, unless a
/// space, gives the staged status and the second, unless a space, the
/// unstaged one.
pub open spec fn line_entries(line: Seq<char>) -> (Seq<(Seq<char>, FileStatus)>, Seq<(Seq<char>, FileStatus)>) {
    let b = encode_utf8(line);
    if b.len() < 3 {
        (Seq::empty(), Seq::empty())
    } else {
        let x = byte_char(b[0]);
        let y = byte_char(b[1]);
        let path = porcelain_path(decode_utf8(b.subrange(3, b.len() as int)));
        if x == '?' && y == '?' {
            (Seq::empty(), seq![(path, FileStatus::Added)])
        } else {
            (
                if x != ' ' { seq![(path, spec_char_to_status(x))] } else { Seq::empty() },
                if y != ' ' { seq![(path, spec_char_to_status(y))] } else { Seq::empty() },
            )
        }
    }
}

/// The staged and unstaged entries of the first `n` lines.
pub open spec fn porcelain_upto(lines: Seq<Seq<char>>, n: int) -> (Seq<(Seq<char>, FileStatus)>, Seq<(Seq<char>, FileStatus)>)
    decreases n,
{
    if n <= 0 || n > lines.len() {
        (Seq::empty(), Seq::empty())
    } else {
        let prev = porcelain_upto(lines, n - 1);
        let add = line_entries(lines[n - 1]);
        (prev.0 + add.0, prev.1 + add.1)
    }
}

/// The staged and unstaged entries that a porcelain status lists.
pub open spec fn spec_parse_porcelain(status: Seq<char>) -> (Seq<(Seq<char>, FileStatus)>, Seq<(Seq<char>, FileStatus)>) {
    porcelain_upto(lines_of(status), lines_of(status).len() as int)
}

/// Every line of a porcelain status can be read.
pub open spec fn porcelain_ok(status: Seq<char>) -> bool {
    forall|k: int| 0 <= k < lines_of(status).len() ==> porcelain_line_ok(#[trigger] lines_of(status)[k])
}

/// The path after `" -> "` when there is one.
fn porcelain_path_chars(rest: &[char]) -> (r: Vec<char>)
    ensures
        r@ == porcelain_path(rest@),
{
    let mut i: usize = 0;
    while rest.len() >= 4 && i <= rest.len() - 4
        invariant
            find_arrow(rest@, i as int) == find_arrow(rest@, 0),
        decreases rest@.len() - i,
    {
        if rest[i] == ' ' && rest[i + 1] == '-' && rest[i + 2] == '>' && rest[i + 3] == ' ' {
            proof {
                reveal_strlit(" -> ");
                assert(rest@.subrange(i as int, i + 4) =~= " -> "@);
            }
            return crate::strings::skip_chars(rest, i + 4);
        }
        proof {
            reveal_strlit(" -> ");
            assert(rest@.subrange(i as int, i + 4) != " -> "@) by {
                let sub = rest@.subrange(i as int, i + 4);
                if sub == " -> "@ {
                    assert(sub[0] == ' ' && sub[1] == '-' && sub[2] == '>' && sub[3] == ' ');
                }
            }
        }
        i += 1;
    }
    let mut r: Vec<char> = Vec::new();
    let mut k: usize = 0;
    while k < rest.len()
        invariant
            k <= rest@.len(),
            r@ == rest@.take(k as int),
        decreases rest@.len() - k,
    {
        r.push(rest[k]);
        assert(rest@.take(k + 1) =~= rest@.take(k as int).push(rest@[k as int]));
        k += 1;
    }
    assert(rest@.take(k as int) =~= rest@);
    r
}

/// Reads one status line.
fn parse_status_line(line: &str, staged: &mut Vec<FileEntry>, unstaged: &mut Vec<FileEntry>)
    requires
        porcelain_line_ok(line@),
    ensures
        entry_views(final(staged)@) == entry_views(old(staged)@) + line_entries(line@).0,
        entry_views(final(unstaged)@) == entry_views(old(unstaged)@) + line_entries(line@).1,
{
    let ghost b = encode_utf8(line@);
    let bytes = line.as_bytes();
    assert(bytes@ == b);
    if bytes.len() < 3 {
        assert(entry_views(staged@) =~= entry_views(old(staged)@) + Seq::empty());
        assert(entry_views(unstaged@) =~= entry_views(old(unstaged)@) + Seq::empty());
        return;
    }
    let x = bytes[0] as char;
    let y = bytes[1] as char;
    let (_, tail) = line.split_at(3);
    assert(tail.spec_bytes() =~= b.subrange(3, b.len() as int));
    assert(decode_utf8(encode_utf8(tail@)) == tail@);
    let tail_chars = chars_of(tail);
    let path_chars = porcelain_path_chars(tail_chars.as_slice());
    let path = string_from_chars(path_chars.as_slice());
    let ghost old_s = entry_views(staged@);
    let ghost old_u = entry_views(unstaged@);
    if x == '?' && y == '?' {
        unstaged.push(FileEntry { path, status: FileStatus::Added });
        assert(entry_views(staged@) =~= old_s + Seq::empty());
        assert(entry_views(unstaged@) =~= old_u + seq![(path_chars@, FileStatus::Added)]);
        return;
    }
    if x != ' ' {
        staged.push(FileEntry { path: path.clone(), status: char_to_status(x) });
        assert(entry_views(staged@) =~= old_s + seq![(path_chars@, spec_char_to_status(x))]);
    } else {
        assert(entry_views(staged@) =~= old_s + Seq::empty());
    }
    if y != ' ' {
        unstaged.push(FileEntry { path, status: char_to_status(y) });
        assert(entry_views(unstaged@) =~= old_u + seq![(path_chars@, spec_char_to_status(y))]);
    } else {
        assert(entry_views(unstaged@) =~= old_u + Seq::empty());
    }
}

/// Reads the output of `git status --porcelain=v1`: the staged entries and
/// the unstaged ones, each in the order of the lines.
pub fn parse_porcelain(status: &str) -> (r: (Vec<FileEntry>, Vec<FileEntry>))
    requires
        porcelain_ok(status@),
    ensures
        entry_views(r.0@) == spec_parse_porcelain(status@).0,
        entry_views(r.1@) == spec_parse_porcelain(status@).1,
{
    let lines = split_lines(status);
    let ghost ls = lines_of(status@);
    let mut staged: Vec<FileEntry> = Vec::new();
    let mut unstaged: Vec<FileEntry> = Vec::new();
    let mut i: usize = 0;
    while i < lines.len()
        invariant
            ls == lines_of(status@),
            porcelain_ok(status@),
            lines@.len() == ls.len(),
            forall|k: int| 0 <= k < lines@.len() ==> #[trigger] lines@[k]@ == ls[k],
            i <= lines@.len(),
            entry_views(staged@) == porcelain_upto(ls, i as int).0,
            entry_views(unstaged@) == porcelain_upto(ls, i as int).1,
        decreases lines@.len() - i,
    {
        let line = string_from_chars(lines[i].as_slice());
        assert(line@ == ls[i as int]);
        assert(porcelain_line_ok(ls[i as int]));
        parse_status_line(line.as_str(), &mut staged, &mut unstaged);
        i += 1;
    }
    (staged, unstaged)
}

/// The branch, staged and unstaged entries of a repository, from what
/// `git symbolic-ref --short HEAD` and `git status --porcelain=v1` printed:
/// a branch that cannot be read is shown as `HEAD`; a status that cannot be
/// read is the error.
pub fn refresh_status(branch_output: Result<String, String>, status_output: Result<String, String>) -> (r: Result<(String, Vec<FileEntry>, Vec<FileEntry>), String>)
    requires
        status_output matches Ok(s) ==> porcelain_ok(s@),
    ensures
        match status_output {
            Err(e) => r == Err::<(String, Vec<FileEntry>, Vec<FileEntry>), String>(e),
            Ok(s) => r matches Ok((branch, staged, unstaged)) && branch@ == (match branch_output {
                Ok(b) => b@,
                Err(_) => "HEAD"@,
            }) && entry_views(staged@) == spec_parse_porcelain(s@).0 && entry_views(unstaged@)
                == spec_parse_porcelain(s@).1,
        },
{
    let branch = match branch_output {
        Ok(b) => b,
        Err(_) => "HEAD".to_owned(),
    };
    match status_output {
        Err(e) => Err(e),
        Ok(s) => {
            let (staged, unstaged) = parse_porcelain(s.as_str());
            Ok((branch, staged, unstaged))
        },
    }
}

/// What the git panel shows.
#[derive(Clone, Debug)]
pub enum GitState {
    /// Waiting for the project root.
    Loading,
    /// The project has no root, so no repository.
    NoRepo,
    /// The last git command failed.
    Error(String),
    /// The status is listed.
    Ready,
}

/// The answer to a `git.status` query.
#[derive(Clone, Debug)]
pub struct GitStatusResponse {
    pub has_repo: bool,
    pub branch: String,
    pub staged: usize,
    pub unstaged: usize,
}

/// A git command that a click asks for.
#[derive(Clone, Debug)]
pub enum GitOp {
    StageAll,
    UnstageAll,
    Commit(String),
    StageFile(String),
    UnstageFile(String),
}

/// What follows a UI event.
#[derive(Clone, Debug)]
pub enum GitStep {
    /// Nothing more to do.
    Done,
    /// Read the status of the repository at this root again.
    Refresh(String),
    /// Run a git command in the repository at this root, then hand its
    /// result to `finish_git_op`.
    Run(String, GitOp),
}

/// The git panel's state.
pub struct GitPanel {
    pub project_root: Option<String>,
    pub open_files: Vec<String>,
    pub branch: String,
    pub staged: Vec<FileEntry>,
    pub unstaged: Vec<FileEntry>,
    pub commit_message: String,
    pub staged_collapsed: bool,
    pub unstaged_collapsed: bool,
    pub state: GitState,
    pub query_handler_id: Option<u64>,
}

/// The prefix of the id of an unstaged file's row, followed by its index.
pub open spec fn stage_file_prefix() -> Seq<char> {
    "stage-file-"@
}

/// The prefix of the id of a staged file's row, followed by its index.
pub open spec fn unstage_file_prefix() -> Seq<char> {
    "unstage-file-"@
}

/// The two panel states agree on everything a UI event leaves alone.
pub open spec fn same_repo_view(a: GitPanel, b: GitPanel) -> bool {
    &&& a.project_root == b.project_root
    &&& a.open_files@ == b.open_files@
    &&& a.branch == b.branch
    &&& a.staged@ == b.staged@
    &&& a.unstaged@ == b.unstaged@
    &&& a.state == b.state
    &&& a.query_handler_id == b.query_handler_id
}

/// The step a UI event on the git buttons and rows leads to, when the panel
/// has a project root `root`.
pub open spec fn spec_git_step(p: GitPanel, root: String, id: Seq<char>) -> GitStep {
    if id == "refresh"@ {
        GitStep::Refresh(root)
    } else if id == "stage-all"@ {
        GitStep::Run(root, GitOp::StageAll)
    } else if id == "unstage-all"@ {
        GitStep::Run(root, GitOp::UnstageAll)
    } else if id == "commit"@ {
        if p.staged@.len() == 0 || p.commit_message@.len() == 0 {
            GitStep::Refresh(root)
        } else {
            GitStep::Run(root, GitOp::Commit(p.commit_message))
        }
    } else if crate::strings::starts_with(id, stage_file_prefix()) {
        match crate::text::spec_parse_indexed_id(id, stage_file_prefix()) {
            Some(i) => if i < p.unstaged@.len() {
                GitStep::Run(root, GitOp::StageFile(p.unstaged@[i as int].path))
            } else {
                GitStep::Done
            },
            None => GitStep::Done,
        }
    } else {
        match crate::text::spec_parse_indexed_id(id, unstage_file_prefix()) {
            Some(i) => if i < p.staged@.len() {
                GitStep::Run(root, GitOp::UnstageFile(p.staged@[i as int].path))
            } else {
                GitStep::Done
            },
            None => GitStep::Done,
        }
    }
}

/// Whether `id` names one of the controls that only change what the panel
/// shows, without git.
pub open spec fn is_local_control(id: Seq<char>) -> bool {
    id == "toggle-staged"@ || id == "toggle-unstaged"@ || id == "commit-input"@ || id == "msg-clear"@
        || id == "msg-feat"@ || id == "msg-fix"@
}

/// The arguments of the git command for an operation. Unstaging works
/// differently in a repository without commits, where there is no `HEAD`
/// to restore from.
pub open spec fn spec_git_args(op: GitOp, has_commits: bool) -> Seq<Seq<char>> {
    match op {
        GitOp::StageAll => seq!["add"@, "-A"@],
        GitOp::UnstageAll => if has_commits {
            seq!["restore"@, "--staged"@, "."@]
        } else {
            seq!["rm"@, "--cached"@, "-r"@, "--"@, "."@]
        },
        GitOp::Commit(m) => seq!["commit"@, "-m"@, m@],
        GitOp::StageFile(p) => seq!["add"@, "--"@, p@],
        GitOp::UnstageFile(p) => if has_commits {
            seq!["restore"@, "--staged"@, "--"@, p@]
        } else {
            seq!["rm"@, "--cached"@, "--"@, p@]
        },
    }
}

/// Whether an operation depends on the repository having a commit.
pub fn needs_history(op: &GitOp) -> (r: bool)
    ensures
        r == (op is UnstageAll || op is UnstageFile),
{
    match op {
        GitOp::UnstageAll | GitOp::UnstageFile(_) => true,
        _ => false,
    }
}

fn strings_of(items: &[&str]) -> (r: Vec<String>)
    ensures
        r@.len() == items@.len(),
        forall|k: int| 0 <= k < r@.len() ==> #[trigger] r@[k]@ == items@[k]@,
{
    let mut r: Vec<String> = Vec::new();
    let mut i: usize = 0;
    while i < items.len()
        invariant
            i <= items@.len(),
            r@.len() == i,
            forall|k: int| 0 <= k < i ==> #[trigger] r@[k]@ == items@[k]@,
        decreases items@.len() - i,
    {
        r.push(items[i].to_owned());
        i += 1;
    }
    r
}

/// The arguments of the git command for an operation, given whether the
/// repository has a commit.
pub fn git_args(op: &GitOp, has_commits: bool) -> (r: Vec<String>)
    ensures
        string_views(r@) == spec_git_args(*op, has_commits),
{
    let items: Vec<&str> = match op {
        GitOp::StageAll => vec!["add", "-A"],
        GitOp::UnstageAll => if has_commits {
            vec!["restore", "--staged", "."]
        } else {
            vec!["rm", "--cached", "-r", "--", "."]
        },
        GitOp::Commit(m) => vec!["commit", "-m", m.as_str()],
        GitOp::StageFile(p) => vec!["add", "--", p.as_str()],
        GitOp::UnstageFile(p) => if has_commits {
            vec!["restore", "--staged", "--", p.as_str()]
        } else {
            vec!["rm", "--cached", "--", p.as_str()]
        },
    };
    let r = strings_of(items.as_slice());
    assert(string_views(r@) =~= spec_git_args(*op, has_commits)) by {
        assert forall|k: int| 0 <= k < r@.len() implies #[trigger] string_views(r@)[k] == spec_git_args(*op, has_commits)[k] by {
            assert(r@[k]@ == items@[k]@);
        }
    }
    r
}

impl GitPanel {
    /// A panel waiting for its project root.
    pub fn new() -> (r: Self)
        ensures
            r.project_root is None,
            r.open_files@.len() == 0,
            r.branch@.len() == 0,
            r.staged@.len() == 0,
            r.unstaged@.len() == 0,
            r.commit_message@.len() == 0,
            !r.staged_collapsed,
            !r.unstaged_collapsed,
            r.state is Loading,
            r.query_handler_id is None,
    {
        GitPanel {
            project_root: None,
            open_files: Vec::new(),
            branch: String::new(),
            staged: Vec::new(),
            unstaged: Vec::new(),
            commit_message: String::new(),
            staged_collapsed: false,
            unstaged_collapsed: false,
            state: GitState::Loading,
            query_handler_id: None,
        }
    }

    /// Records the id under which the panel's `git.status` query handler
    /// was registered, when registering it succeeded.
    pub fn gui_init(&mut self, registered: Result<u64, String>)
        ensures
            final(self).query_handler_id == (match registered {
                Ok(id) => Some(id),
                Err(_) => None,
            }),
            same_repo_view_except_handler(*old(self), *final(self)),
    {
        self.query_handler_id = match registered {
            Ok(id) => Some(id),
            Err(_) => None,
        };
    }

    /// Takes the repository's status as `refresh_status` read it: on
    /// success the panel lists it, otherwise it shows the error.
    pub fn apply_refresh(&mut self, refreshed: Result<(String, Vec<FileEntry>, Vec<FileEntry>), String>)
        ensures
            final(self).project_root == old(self).project_root,
            final(self).open_files@ == old(self).open_files@,
            final(self).commit_message == old(self).commit_message,
            final(self).staged_collapsed == old(self).staged_collapsed,
            final(self).unstaged_collapsed == old(self).unstaged_collapsed,
            final(self).query_handler_id == old(self).query_handler_id,
            match refreshed {
                Ok((b, s, u)) => final(self).branch == b && final(self).staged@ == s@ && final(self).unstaged@ == u@
                    && final(self).state is Ready,
                Err(e) => final(self).branch == old(self).branch && final(self).staged@ == old(self).staged@
                    && final(self).unstaged@ == old(self).unstaged@ && final(self).state == GitState::Error(e),
            },
    {
        match refreshed {
            Ok((branch, staged, unstaged)) => {
                self.branch = branch;
                self.staged = staged;
                self.unstaged = unstaged;
                self.state = GitState::Ready;
            },
            Err(err) => {
                self.state = GitState::Error(err);
            },
        }
    }

    /// Handles a workspace event. A new project root is recorded and its
    /// status must be read (the root is returned); an empty root means no
    /// repository. A new list of open files, as a JSON array of strings,
    /// replaces the panel's list when it parses.
    pub fn on_pub_sub_event(&mut self, topic: &str, data: String) -> (refresh: Option<String>)
        ensures
            topic@ == "zed.project-root-changed"@ ==> if data@.len() == 0 {
                &&& refresh is None
                &&& final(self).project_root is None
                &&& final(self).state is NoRepo
                &&& final(self).open_files@ == old(self).open_files@
            } else {
                &&& refresh == Some(data)
                &&& final(self).project_root == Some(data)
                &&& final(self).state == old(self).state
                &&& final(self).open_files@ == old(self).open_files@
            },
            topic@ == "zed.open-files-changed"@ ==> {
                &&& refresh is None
                &&& final(self).project_root == old(self).project_root
                &&& final(self).state == old(self).state
                &&& match json_parse_string_list(data@) {
                    Some(files) => string_views(final(self).open_files@) == files,
                    None => final(self).open_files@ == old(self).open_files@,
                }
            },
            topic@ != "zed.project-root-changed"@ && topic@ != "zed.open-files-changed"@ ==> refresh is None
                && final(self).project_root == old(self).project_root && final(self).state == old(self).state
                && final(self).open_files@ == old(self).open_files@,
            final(self).branch == old(self).branch,
            final(self).staged@ == old(self).staged@,
            final(self).unstaged@ == old(self).unstaged@,
            final(self).commit_message == old(self).commit_message,
            final(self).staged_collapsed == old(self).staged_collapsed,
            final(self).unstaged_collapsed == old(self).unstaged_collapsed,
            final(self).query_handler_id == old(self).query_handler_id,
    {
        proof {
            reveal_strlit("zed.project-root-changed");
            reveal_strlit("zed.open-files-changed");
            assert("zed.project-root-changed"@.len() != "zed.open-files-changed"@.len());
        }
        if str_eq(topic, "zed.project-root-changed") {
            if data.as_str().is_empty() {
                self.project_root = None;
                self.state = GitState::NoRepo;
                return None;
            }
            self.project_root = Some(data.clone());
            Some(data)
        } else if str_eq(topic, "zed.open-files-changed") {
            match parse_json_string_list(data.as_str()) {
                Some(files) => {
                    self.open_files = files;
                },
                None => {},
            }
            None
        } else {
            None
        }
    }

    /// Answers a `git.status` query. `refreshed` is what reading the status
    /// of the project root gave, and is present exactly when the panel has
    /// a root: without one the answer is "no repository".
    pub fn handle_git_status(&self, refreshed: Option<Result<(String, Vec<FileEntry>, Vec<FileEntry>), String>>) -> (r: Result<GitStatusResponse, String>)
        requires
            refreshed is Some <==> self.project_root is Some,
        ensures
            self.project_root is None ==> (r matches Ok(resp) && !resp.has_repo && resp.branch@.len() == 0
                && resp.staged == 0 && resp.unstaged == 0),
            refreshed matches Some(Ok((b, s, u))) ==> (r matches Ok(resp) && resp.has_repo && resp.branch == b
                && resp.staged == s@.len() && resp.unstaged == u@.len()),
            refreshed matches Some(Err(e)) ==> r == Err::<GitStatusResponse, String>(e),
    {
        match refreshed {
            None => Ok(GitStatusResponse { has_repo: false, branch: String::new(), staged: 0, unstaged: 0 }),
            Some(Ok((branch, staged, unstaged))) => Ok(GitStatusResponse {
                has_repo: true,
                branch,
                staged: staged.len(),
                unstaged: unstaged.len(),
            }),
            Some(Err(e)) => Err(e),
        }
    }

    /// Handles a UI event. The collapse toggles, the commit message input
    /// and its preset buttons change the panel at once; the git buttons and
    /// file rows need the project root and lead to a refresh or a git
    /// command (see `spec_git_step`); a row whose index is out of range, an
    /// unknown id, or no project root lead nowhere.
    pub fn gui_on_event(&mut self, source_id: &str, event: &UiEvent) -> (step: GitStep)
        ensures
            same_repo_view(*old(self), *final(self)),
            source_id@ == "toggle-staged"@ ==> step is Done && final(self).staged_collapsed == !old(self).staged_collapsed
                && final(self).unstaged_collapsed == old(self).unstaged_collapsed
                && final(self).commit_message == old(self).commit_message,
            source_id@ == "toggle-unstaged"@ ==> step is Done && final(self).unstaged_collapsed == !old(self).unstaged_collapsed
                && final(self).staged_collapsed == old(self).staged_collapsed
                && final(self).commit_message == old(self).commit_message,
            source_id@ == "commit-input"@ ==> step is Done && final(self).commit_message == (match *event {
                UiEvent::InputChanged(v) => v,
                _ => old(self).commit_message,
            }) && final(self).staged_collapsed == old(self).staged_collapsed
                && final(self).unstaged_collapsed == old(self).unstaged_collapsed,
            source_id@ == "msg-clear"@ ==> step is Done && final(self).commit_message@.len() == 0,
            source_id@ == "msg-feat"@ ==> step is Done && final(self).commit_message@ == "feat: add new feature"@,
            source_id@ == "msg-fix"@ ==> step is Done && final(self).commit_message@ == "fix: resolve issue"@,
            (source_id@ == "msg-clear"@ || source_id@ == "msg-feat"@ || source_id@ == "msg-fix"@) ==>
                final(self).staged_collapsed == old(self).staged_collapsed
                && final(self).unstaged_collapsed == old(self).unstaged_collapsed,
            !is_local_control(source_id@) ==> final(self).staged_collapsed == old(self).staged_collapsed
                && final(self).unstaged_collapsed == old(self).unstaged_collapsed
                && final(self).commit_message == old(self).commit_message
                && step == (match old(self).project_root {
                    None => GitStep::Done,
                    Some(root) => spec_git_step(*old(self), root, source_id@),
                }),
    {
        proof {
            reveal_strlit("toggle-staged");
            reveal_strlit("toggle-unstaged");
            reveal_strlit("commit-input");
            reveal_strlit("msg-clear");
            reveal_strlit("msg-feat");
            reveal_strlit("msg-fix");
            reveal_strlit("refresh");
            reveal_strlit("stage-all");
            reveal_strlit("unstage-all");
            reveal_strlit("commit");
            reveal_strlit("stage-file-");
            reveal_strlit("unstage-file-");
        }
        if str_eq(source_id, "toggle-staged") {
            self.staged_collapsed = !self.staged_collapsed;
            return GitStep::Done;
        }
        if str_eq(source_id, "toggle-unstaged") {
            self.unstaged_collapsed = !self.unstaged_collapsed;
            return GitStep::Done;
        }
        if str_eq(source_id, "commit-input") {
            match event {
                UiEvent::InputChanged(v) => {
                    self.commit_message = v.clone();
                },
                _ => {},
            }
            return GitStep::Done;
        }
        if str_eq(source_id, "msg-clear") {
            self.commit_message = String::new();
            return GitStep::Done;
        }
        if str_eq(source_id, "msg-feat") {
            self.commit_message = "feat: add new feature".to_owned();
            return GitStep::Done;
        }
        if str_eq(source_id, "msg-fix") {
            self.commit_message = "fix: resolve issue".to_owned();
            return GitStep::Done;
        }
        let root = match &self.project_root {
            Some(r) => r.clone(),
            None => {
                return GitStep::Done;
            },
        };
        if str_eq(source_id, "refresh") {
            return GitStep::Refresh(root);
        }
        if str_eq(source_id, "stage-all") {
            return GitStep::Run(root, GitOp::StageAll);
        }
        if str_eq(source_id, "unstage-all") {
            return GitStep::Run(root, GitOp::UnstageAll);
        }
        if str_eq(source_id, "commit") {
            if self.staged.len() == 0 || self.commit_message.as_str().is_empty() {
                return GitStep::Refresh(root);
            }
            return GitStep::Run(root, GitOp::Commit(self.commit_message.clone()));
        }
        if crate::strings::str_starts_with(source_id, "stage-file-") {
            return match crate::text::parse_indexed_id(source_id, "stage-file-") {
                Some(i) => if i < self.unstaged.len() {
                    GitStep::Run(root, GitOp::StageFile(self.unstaged[i].path.clone()))
                } else {
                    GitStep::Done
                },
                None => GitStep::Done,
            };
        }
        match crate::text::parse_indexed_id(source_id, "unstage-file-") {
            Some(i) => if i < self.staged.len() {
                GitStep::Run(root, GitOp::UnstageFile(self.staged[i].path.clone()))
            } else {
                GitStep::Done
            },
            None => GitStep::Done,
        }
    }

    /// Takes the result of a git command run for `op`: a failure is shown
    /// and nothing more happens; a success clears the commit message after
    /// a commit, and the status must then be read again (`true`).
    pub fn finish_git_op(&mut self, op: &GitOp, result: Result<String, String>) -> (refresh: bool)
        ensures
            refresh == (result is Ok),
            final(self).project_root == old(self).project_root,
            final(self).open_files@ == old(self).open_files@,
            final(self).branch == old(self).branch,
            final(self).staged@ == old(self).staged@,
            final(self).unstaged@ == old(self).unstaged@,
            final(self).staged_collapsed == old(self).staged_collapsed,
            final(self).unstaged_collapsed == old(self).unstaged_collapsed,
            final(self).query_handler_id == old(self).query_handler_id,
            match result {
                Err(e) => final(self).state == GitState::Error(e) && final(self).commit_message == old(self).commit_message,
                Ok(_) => final(self).state == old(self).state && (if op is Commit {
                    final(self).commit_message@.len() == 0
                } else {
                    final(self).commit_message == old(self).commit_message
                }),
            },
    {
        match result {
            Err(err) => {
                self.state = GitState::Error(err);
                false
            },
            Ok(_) => {
                match op {
                    GitOp::Commit(_) => {
                        self.commit_message = String::new();
                    },
                    _ => {},
                }
                true
            },
        }
    }

    /// Runs one of the panel's commands: only `open-panel` is known.
    pub fn run_extension_command(&self, command_id: &str) -> (r: Result<(), String>)
        ensures
            command_id@ == "open-panel"@ ==> r is Ok,
            command_id@ != "open-panel"@ ==> (r matches Err(e) && e@ == "unknown command: "@ + command_id@),
    {
        if str_eq(command_id, "open-panel") {
            Ok(())
        } else {
            Err(concat_str("unknown command: ", command_id))
        }
    }
}

/// The two panel states agree on everything but the query handler id.
pub open spec fn same_repo_view_except_handler(a: GitPanel, b: GitPanel) -> bool {
    &&& a.project_root == b.project_root
    &&& a.open_files@ == b.open_files@
    &&& a.branch == b.branch
    &&& a.staged@ == b.staged@
    &&& a.unstaged@ == b.unstaged@
    &&& a.commit_message == b.commit_message
    &&& a.staged_collapsed == b.staged_collapsed
    &&& a.unstaged_collapsed == b.unstaged_collapsed
    &&& a.state == b.state
}

/// The texts of a file's row: its status letter in the status's color, its
/// path, and the action a click performs, muted.
pub open spec fn file_row_labels(e: (Seq<char>, FileStatus), action: Seq<char>) -> Seq<Shown> {
    seq![(spec_status_label(e.1), Some(spec_status_color(e.1))), (e.0, None::<Color>), (action, Some(Color::TextMuted))]
}

/// The texts of the rows of the first `n` entries.
pub open spec fn file_rows_labels(v: Seq<(Seq<char>, FileStatus)>, action: Seq<char>, n: int) -> Seq<Shown>
    decreases n,
{
    if n <= 0 || n > v.len() {
        Seq::empty()
    } else {
        file_rows_labels(v, action, n - 1) + file_row_labels(v[n - 1], action)
    }
}

/// The ids `<prefix><index>` of `n` rows.
pub open spec fn row_ids(prefix: Seq<char>, n: int) -> Seq<Seq<char>> {
    Seq::new(n as nat, |i: int| prefix + decimal(i as nat))
}

/// The shape of a file's row `id`: its status tag in the status colour,
/// its path on one line, and the action hint.
pub open spec fn file_row_shape(id: Seq<char>, e: (Seq<char>, FileStatus), action: Seq<char>) -> Shape {
    let st = sv_cursor_pointer(sv_gap_x(sv_items_center(sv_py(sv_px_3(row_style()), Length::Px(F32_3))), DefiniteLength::Px(F32_6)));
    let path_box = plain(
        sv_overflow_x_hidden(sv_min_w(sv_flex_1(no_style()), DefiniteLength::Px(F32_0))),
        seq![Shape::Text(e.0, sv_single_line(sv_text_sm(no_style())))],
    );
    clickable(id, st, seq![
        Shape::Text(spec_status_label(e.1), sv_text_xs(sv_bold(sv_color(no_style(), spec_status_color(e.1))))),
        path_box,
        Shape::Text(action, sv_muted(sv_text_xs(no_style()))),
    ])
}

/// The shapes of the rows `<prefix><index>` of the entries.
pub open spec fn file_rows_shapes(prefix: Seq<char>, entries: Seq<(Seq<char>, FileStatus)>, action: Seq<char>) -> Seq<Shape> {
    Seq::new(entries.len(), |i: int| file_row_shape(prefix + decimal(i as nat), entries[i], action))
}

/// A file's row; clicking it reports `id`.
fn file_row(id: String, entry: &FileEntry, action: &str, handlers: &mut HandlerRegistry<()>) -> (r: Div)
    ensures
        div_shape(r) == file_row_shape(id@, entry_view(*entry), action@),
        div_labels(r) == file_row_labels(entry_view(*entry), action@),
        div_controls(r) == seq![id@],
        div_size(r) == 5,
        final(handlers)@ == old(handlers)@ + clicks(seq![id@]),
{
    let ghost idv = id@;
    let row = h_flex()
        .id(id)
        .px_3()
        .py(Length::Px(F32_3))
        .items_center()
        .gap_x(DefiniteLength::Px(F32_6))
        .cursor_pointer()
        .on_click((), handlers);
    let l0 = Label::new(entry.status.label().to_owned()).color(entry.status.color()).bold().text_xs();
    let ghost a0 = label_shape(l0);
    let row = with_label(row, l0);
    let path_box = div().flex_1().min_w(DefiniteLength::Px(F32_0)).overflow_x_hidden();
    let l1 = Label::new(entry.path.clone()).text_sm().single_line();
    let ghost a1 = label_shape(l1);
    let path_box = with_label(path_box, l1);
    assert(seq![].push(a1) =~= seq![a1]);
    let ghost pb = div_shape(path_box);
    let row = with_div(row, path_box);
    let l2 = Label::new(action.to_owned()).text_xs().muted();
    let ghost a2 = label_shape(l2);
    let row = with_label(row, l2);
    assert(seq![].push(a0).push(pb).push(a2) =~= seq![a0, pb, a2]);
    assert(div_labels(row) =~= file_row_labels(entry_view(*entry), action@));
    assert(div_controls(row) =~= seq![idv]);
    assert(final(handlers)@ =~= old(handlers)@ + clicks(seq![idv]));
    row
}

/// The rows of a list of entries, with ids `<prefix><index>`.
fn file_rows(entries: &Vec<FileEntry>, prefix: &str, action: &str, handlers: &mut HandlerRegistry<()>) -> (r: Vec<Div>)
    ensures
        divs_labels(r@) == file_rows_labels(entry_views(entries@), action@, entries@.len() as int),
        divs_controls(r@) == row_ids(prefix@, entries@.len() as int),
        divs_size(r@) == 5 * entries@.len(),
        r@.len() == entries@.len(),
        divs_shapes(r@) == file_rows_shapes(prefix@, entry_views(entries@), action@),
        final(handlers)@ == old(handlers)@ + clicks(row_ids(prefix@, entries@.len() as int)),
{
    let mut r: Vec<Div> = Vec::new();
    let mut i: usize = 0;
    assert(old(handlers)@ + clicks(row_ids(prefix@, 0)) =~= old(handlers)@);
    assert(divs_controls(r@) =~= row_ids(prefix@, 0));
    assert(divs_shapes(r@) =~= file_rows_shapes(prefix@, entry_views(entries@).take(0), action@));
    while i < entries.len()
        invariant
            i <= entries@.len(),
            divs_labels(r@) == file_rows_labels(entry_views(entries@), action@, i as int),
            divs_controls(r@) == row_ids(prefix@, i as int),
            divs_size(r@) == 5 * i,
            r@.len() == i,
            divs_shapes(r@) == file_rows_shapes(prefix@, entry_views(entries@).take(i as int), action@),
            handlers@ == old(handlers)@ + clicks(row_ids(prefix@, i as int)),
        decreases entries@.len() - i,
    {
        let ghost before = r@;
        let row = file_row(indexed_id(prefix, i), &entries[i], action, handlers);
        r.push(row);
        proof {
            assert(r@.drop_last() =~= before);
            assert(entry_views(entries@)[i as int] == entry_view(entries@[i as int]));
            assert(row_ids(prefix@, i + 1) =~= row_ids(prefix@, i as int).push(prefix@ + decimal(i as nat)));
            assert(divs_labels(r@) =~= file_rows_labels(entry_views(entries@), action@, i + 1));
            assert(divs_controls(r@) =~= row_ids(prefix@, i + 1));
            assert(clicks(row_ids(prefix@, i + 1)) =~= clicks(row_ids(prefix@, i as int)) + clicks(seq![prefix@ + decimal(i as nat)]));
            assert(handlers@ =~= old(handlers)@ + clicks(row_ids(prefix@, i + 1)));
            assert(divs_shapes(r@) =~= file_rows_shapes(prefix@, entry_views(entries@).take(i + 1), action@));
        }
        i += 1;
    }
    assert(entry_views(entries@).take(i as int) =~= entry_views(entries@));
    r
}

/// The texts of the open-file rows of the first `n` paths: a muted circle
/// and the file's name.
pub open spec fn open_file_rows_labels(paths: Seq<String>, n: int) -> Seq<Shown>
    decreases n,
{
    if n <= 0 || n > paths.len() {
        Seq::empty()
    } else {
        open_file_rows_labels(paths, n - 1) + seq![("○"@, Some(Color::TextMuted)), (after_last_slash(paths[n - 1]@), None::<Color>)]
    }
}

/// The shape of an open file's row: a muted circle and the file's name.
#[verifier::opaque]
pub open spec fn open_file_row_shape(path: Seq<char>) -> Shape {
    let name_box = plain(
        sv_overflow_x_hidden(sv_min_w(sv_flex_1(no_style()), DefiniteLength::Px(F32_0))),
        seq![Shape::Text(after_last_slash(path), sv_single_line(sv_text_sm(no_style())))],
    );
    plain(sv_gap_x(sv_items_center(sv_py(sv_px_3(row_style()), Length::Px(F32_2))), DefiniteLength::Px(F32_6)), seq![
        Shape::Text("○"@, sv_text_xs(sv_muted(no_style()))),
        name_box,
    ])
}

/// The shapes of the rows of the open files.
pub open spec fn open_file_rows_shapes(paths: Seq<String>) -> Seq<Shape> {
    Seq::new(paths.len(), |i: int| open_file_row_shape(paths[i]@))
}

/// The rows of the open files.
fn open_file_rows(paths: &Vec<String>) -> (r: Vec<Div>)
    ensures
        divs_shapes(r@) == open_file_rows_shapes(paths@),
        divs_labels(r@) == open_file_rows_labels(paths@, paths@.len() as int),
        divs_controls(r@) == Seq::<Seq<char>>::empty(),
        divs_size(r@) == 4 * paths@.len(),
{
    let mut r: Vec<Div> = Vec::new();
    let mut i: usize = 0;
    assert(divs_shapes(r@) =~= open_file_rows_shapes(paths@.take(0)));
    while i < paths.len()
        invariant
            i <= paths@.len(),
            divs_labels(r@) == open_file_rows_labels(paths@, i as int),
            divs_controls(r@) == Seq::<Seq<char>>::empty(),
            divs_size(r@) == 4 * i,
            divs_shapes(r@) == open_file_rows_shapes(paths@.take(i as int)),
        decreases paths@.len() - i,
    {
        proof {
            reveal(open_file_row_shape);
        }
        let ghost before = r@;
        let chars = chars_of(paths[i].as_str());
        let name = string_from_chars(after_last_slash_chars(chars.as_slice()).as_slice());
        let row = h_flex().px_3().py(Length::Px(F32_2)).items_center().gap_x(DefiniteLength::Px(F32_6));
        let l0 = Label::new("○".to_owned()).muted().text_xs();
        let ghost a0 = label_shape(l0);
        let row = with_label(row, l0);
        let name_box = div().flex_1().min_w(DefiniteLength::Px(F32_0)).overflow_x_hidden();
        let l1 = Label::new(name).text_sm().single_line();
        let ghost a1 = label_shape(l1);
        let name_box = with_label(name_box, l1);
        assert(seq![].push(a1) =~= seq![a1]);
        let ghost nb = div_shape(name_box);
        let row = with_div(row, name_box);
        assert(seq![].push(a0).push(nb) =~= seq![a0, nb]);
        assert(div_shape(row) == open_file_row_shape(paths@[i as int]@));
        r.push(row);
        proof {
            assert(r@.drop_last() =~= before);
            assert(divs_labels(r@) =~= open_file_rows_labels(paths@, i + 1));
            assert(divs_controls(r@) =~= Seq::<Seq<char>>::empty());
            assert(divs_shapes(r@) =~= open_file_rows_shapes(paths@.take(i + 1)));
        }
        i += 1;
    }
    assert(paths@.take(i as int) =~= paths@);
    r
}

/// The header of a section of changes: a collapse marker, the title and
/// the count, and, when there are changes, a button for all of them.
pub open spec fn section_header_labels(collapsed: bool, title: Seq<char>, count: nat, all_label: Seq<char>, all_muted: bool) -> Seq<Shown> {
    seq![(if collapsed { "▶"@ } else { "▼"@ }, Some(Color::TextMuted)), (title, None::<Color>), (decimal(count), Some(Color::TextMuted))]
        + if count > 0 { seq![(all_label, if all_muted { Some(Color::TextMuted) } else { None::<Color> })] } else { Seq::empty() }
}

/// The controls of a section header: the toggle, and the button for all
/// changes when there are some.
pub open spec fn section_header_controls(toggle_id: Seq<char>, count: nat, all_id: Seq<char>) -> Seq<Seq<char>> {
    seq![toggle_id] + if count > 0 { seq![all_id] } else { Seq::empty() }
}

/// The count badge of a section header.
pub open spec fn count_badge_shape(count: nat) -> Shape {
    plain(sv_bg(sv_rounded_full(sv_py(sv_px(no_style(), Length::Px(F32_6)), Length::Px(F32_1))), Color::SurfaceBackground), seq![
        Shape::Text(decimal(count), sv_muted(sv_text_xs(no_style()))),
    ])
}

/// The shape of a section header: a clickable row `toggle_id` with the
/// collapse marker, the title and the count badge, and, when there are
/// changes, the button `all_id` for all of them.
#[verifier::opaque]
pub open spec fn section_header_shape(toggle_id: Seq<char>, collapsed: bool, title: Seq<char>, count: nat, all_id: Seq<char>, all_label: Seq<char>, all_muted: bool) -> Shape {
    let st = sv_cursor_pointer(sv_justify_between(sv_items_center(sv_py_1(sv_px_3(row_style())))));
    let left = plain(sv_items_center(sv_gap_x(row_style(), DefiniteLength::Px(F32_4))), seq![
        Shape::Text(if collapsed { "▶"@ } else { "▼"@ }, sv_text_xs(sv_muted(no_style()))),
        Shape::Text(title, sv_text_sm(sv_bold(no_style()))),
        count_badge_shape(count),
    ]);
    let button_style = sv_cursor_pointer(sv_border_color(sv_border_1(sv_rounded_sm(sv_py(sv_px_2(no_style()), Length::Px(F32_2)))), Color::Border));
    let button = clickable(all_id, button_style, seq![
        Shape::Text(all_label, if all_muted { sv_muted(sv_text_xs(no_style())) } else { sv_text_xs(no_style()) }),
    ]);
    clickable(toggle_id, st, if count > 0 { seq![left, button] } else { seq![left] })
}

/// The header of a section of changes.
fn section_header(toggle_id: &str, collapsed: bool, title: &str, count: usize, all_id: &str, all_label: &str, all_muted: bool, handlers: &mut HandlerRegistry<()>) -> (r: Div)
    ensures
        div_labels(r) == section_header_labels(collapsed, title@, count as nat, all_label@, all_muted),
        div_controls(r) == section_header_controls(toggle_id@, count as nat, all_id@),
        div_size(r) <= 9,
        div_shape(r) == section_header_shape(toggle_id@, collapsed, title@, count as nat, all_id@, all_label@, all_muted),
        final(handlers)@ == old(handlers)@ + clicks(section_header_controls(toggle_id@, count as nat, all_id@)),
{
    proof {
        reveal(section_header_shape);
    }
    let header = h_flex()
        .id(toggle_id.to_owned())
        .px_3()
        .py_1()
        .items_center()
        .justify_between()
        .cursor_pointer()
        .on_click((), handlers);
    let ghost h1 = handlers@;
    let marker = if collapsed { "▶" } else { "▼" };
    let left = h_flex().gap_x(DefiniteLength::Px(F32_4)).items_center();
    let lm = Label::new(marker.to_owned()).muted().text_xs();
    let lt = Label::new(title.to_owned()).bold().text_sm();
    let ghost (am, at) = (label_shape(lm), label_shape(lt));
    let left = with_label(left, lm);
    let left = with_label(left, lt);
    let badge = div().px(Length::Px(F32_6)).py(Length::Px(F32_1)).rounded_full().bg(color_surface());
    let lc = Label::new(usize_to_string(count)).text_xs().muted();
    let ghost ac = label_shape(lc);
    let badge = with_label(badge, lc);
    assert(seq![].push(ac) =~= seq![ac]);
    assert(div_shape(badge) == count_badge_shape(count as nat));
    let left = with_div(left, badge);
    assert(seq![].push(am).push(at).push(count_badge_shape(count as nat)) =~= seq![am, at, count_badge_shape(count as nat)]);
    let ghost ls = div_shape(left);
    let mut header = with_div(header, left);
    assert(seq![].push(ls) =~= seq![ls]);
    if count > 0 {
        let button = div()
            .id(all_id.to_owned())
            .px_2()
            .py(Length::Px(F32_2))
            .rounded_sm()
            .border_1()
            .border_color(color_border())
            .cursor_pointer()
            .on_click((), handlers);
        let label = if all_muted {
            Label::new(all_label.to_owned()).text_xs().muted()
        } else {
            Label::new(all_label.to_owned()).text_xs()
        };
        let ghost al = label_shape(label);
        let button = with_label(button, label);
        assert(seq![].push(al) =~= seq![al]);
        let ghost bs = div_shape(button);
        header = with_div(header, button);
        assert(seq![ls].push(bs) =~= seq![ls, bs]);
    }
    assert(div_labels(header) =~= section_header_labels(collapsed, title@, count as nat, all_label@, all_muted));
    assert(div_controls(header) =~= section_header_controls(toggle_id@, count as nat, all_id@));
    assert(handlers@ =~= old(handlers)@ + clicks(section_header_controls(toggle_id@, count as nat, all_id@)));
    header
}

/// The label of the commit button: `Commit`, or `Commit <n> file(s)` when
/// files are staged.
pub open spec fn commit_label(staged: nat) -> Seq<char> {
    if staged > 0 {
        "Commit "@ + decimal(staged) + " file"@ + (if staged == 1 { Seq::empty() } else { "s"@ })
    } else {
        "Commit"@
    }
}

/// The texts of the commit area: the two message presets, the clear
/// button when there is a message, and the commit button.
pub open spec fn commit_area_labels(message: Seq<char>, staged: nat) -> Seq<Shown> {
    seq![("feat: …"@, Some(Color::TextMuted)), ("fix: …"@, Some(Color::TextMuted))]
        + (if message.len() > 0 { seq![("Clear"@, Some(Color::StatusError))] } else { Seq::empty() })
        + seq![(commit_label(staged), None::<Color>)]
}

/// The controls of the commit area: the message input, the presets, the
/// clear button when there is a message, and the commit button when a
/// commit is possible (files staged and a message).
pub open spec fn commit_area_controls(message: Seq<char>, staged: nat) -> Seq<Seq<char>> {
    seq!["commit-input"@, "msg-feat"@, "msg-fix"@] + (if message.len() > 0 { seq!["msg-clear"@] } else { Seq::empty() })
        + (if staged > 0 && message.len() > 0 { seq!["commit"@] } else { Seq::empty() })
}

/// The click handlers the commit area registers: those of its controls but
/// the input.
pub open spec fn commit_area_clicks(message: Seq<char>, staged: nat) -> Seq<Seq<char>> {
    seq!["msg-feat"@, "msg-fix"@] + (if message.len() > 0 { seq!["msg-clear"@] } else { Seq::empty() })
        + (if staged > 0 && message.len() > 0 { seq!["commit"@] } else { Seq::empty() })
}

/// The shape of a preset button `id` showing `label`.
pub open spec fn preset_shape(id: Seq<char>, label: Shape) -> Shape {
    let st = sv_py(sv_px_2(no_style()), Length::Px(F32_3));
    clickable(id, sv_cursor_pointer(sv_border_color(sv_border_1(sv_rounded_sm(st)), Color::Border)), seq![label])
}

/// The shape of the commit button with text `text`: on the accent colour
/// and reporting clicks when a commit is possible; otherwise on the surface
/// colour, muted, and not clickable.
pub open spec fn commit_button_shape(text: Seq<char>, can_commit: bool) -> Shape {
    let base = sv_items_center(sv_justify_center(sv_rounded_md(sv_py_2(sv_w_full(row_style())))));
    let label = Shape::Text(text, sv_text_sm(sv_bold(no_style())));
    if can_commit {
        clickable("commit"@, sv_cursor_pointer(sv_text_color(sv_bg(base, Color::Accent), Color::Background)), seq![label])
    } else {
        Shape::Node(Some("commit"@), None, sv_text_color(sv_bg(base, Color::SurfaceBackground), Color::TextMuted), spec_empty_events(), None, seq![label])
    }
}

/// The shape of the commit area: the message input, the presets (with the
/// clear button when there is a message) and the commit button.
#[verifier::opaque]
pub open spec fn commit_area_shape(message: Seq<char>, staged: nat) -> Shape {
    let input_style = sv_bg(sv_border_color(sv_border_1(sv_rounded_md(sv_p_2(sv_w_full(no_style())))), Color::Border), Color::SurfaceBackground);
    let input = Shape::Input("commit-input"@, message, Some("Enter commit message..."@), false, sv_text_sm(input_style));
    let feat = preset_shape("msg-feat"@, Shape::Text("feat: …"@, sv_muted(sv_text_xs(no_style()))));
    let fix = preset_shape("msg-fix"@, Shape::Text("fix: …"@, sv_muted(sv_text_xs(no_style()))));
    let clear = preset_shape("msg-clear"@, Shape::Text("Clear"@, sv_color(sv_text_xs(no_style()), Color::StatusError)));
    let presets = plain(sv_gap_x(row_style(), DefiniteLength::Px(F32_6)), if message.len() > 0 {
        seq![feat, fix, clear]
    } else {
        seq![feat, fix]
    });
    plain(sv_gap_y(sv_p_3(column_style()), DefiniteLength::Px(F32_8)), seq![
        input,
        presets,
        commit_button_shape(commit_label(staged), staged > 0 && message.len() > 0),
    ])
}

/// The commit button showing `text`; clickable as `commit` only when a
/// commit is possible.
fn commit_button(text: String, can_commit: bool, handlers: &mut HandlerRegistry<()>) -> (r: Div)
    ensures
        div_shape(r) == commit_button_shape(text@, can_commit),
        div_labels(r) == seq![(text@, None::<Color>)],
        div_controls(r) == (if can_commit { seq!["commit"@] } else { Seq::<Seq<char>>::empty() }),
        div_size(r) == 2,
        final(handlers)@ == old(handlers)@ + clicks(if can_commit { seq!["commit"@] } else { Seq::<Seq<char>>::empty() }),
{
    let button = h_flex().id("commit".to_owned()).w_full().py_2().rounded_md().justify_center().items_center();
    let button = if can_commit {
        button.bg(color_accent()).text_color(color_background()).cursor_pointer().on_click((), handlers)
    } else {
        button.bg(color_surface()).text_color(color_muted())
    };
    let l = Label::new(text).bold().text_sm();
    let ghost ls = label_shape(l);
    let ghost lt = l.text@;
    let r = with_label(button, l);
    assert(seq![].push(ls) =~= seq![ls]);
    assert(div_labels(r) =~= seq![(lt, None::<Color>)]);
    assert(div_controls(r) =~= (if can_commit { seq!["commit"@] } else { Seq::<Seq<char>>::empty() }));
    assert(handlers@ =~= old(handlers)@ + clicks(if can_commit { seq!["commit"@] } else { Seq::<Seq<char>>::empty() }));
    r
}

/// A small preset button.
fn preset_button(id: &str, label: Label, handlers: &mut HandlerRegistry<()>) -> (r: Div)
    ensures
        div_labels(r) == seq![(label.text@, label.style.text_color)],
        div_controls(r) == seq![id@],
        div_size(r) == 2,
        div_shape(r) == preset_shape(id@, label_shape(label)),
        final(handlers)@ == old(handlers)@ + clicks(seq![id@]),
{
    let b = div()
        .id(id.to_owned())
        .px_2()
        .py(Length::Px(F32_3))
        .rounded_sm()
        .border_1()
        .border_color(color_border())
        .cursor_pointer()
        .on_click((), handlers);
    let r = with_label(b, label);
    assert(div_controls(r) =~= seq![id@]);
    assert(final(handlers)@ =~= old(handlers)@ + clicks(seq![id@]));
    r
}

/// The commit area: message input, presets and commit button.
fn commit_area(message: &String, staged: usize, handlers: &mut HandlerRegistry<()>) -> (r: Div)
    ensures
        div_labels(r) == commit_area_labels(message@, staged as nat),
        div_controls(r) == commit_area_controls(message@, staged as nat),
        div_size(r) <= 11,
        div_shape(r) == commit_area_shape(message@, staged as nat),
        final(handlers)@ == old(handlers)@ + clicks(commit_area_clicks(message@, staged as nat)),
{
    proof {
        reveal(commit_area_shape);
    }
    let empty = message.as_str().is_empty();
    let can_commit = staged > 0 && !empty;
    let input = Input::new("commit-input".to_owned(), message.clone())
        .placeholder("Enter commit message...".to_owned())
        .w_full()
        .p_2()
        .rounded_md()
        .border_1()
        .border_color(color_border())
        .bg(color_surface())
        .text_sm();
    let presets = h_flex().gap_x(DefiniteLength::Px(F32_6));
    let presets = with_div(presets, preset_button("msg-feat", Label::new("feat: …".to_owned()).text_xs().muted(), handlers));
    let presets = with_div(presets, preset_button("msg-fix", Label::new("fix: …".to_owned()).text_xs().muted(), handlers));
    let presets = if !empty {
        with_div(presets, preset_button("msg-clear", Label::new("Clear".to_owned()).text_xs().color(color_error()), handlers))
    } else {
        presets
    };
    proof {
        let feat = preset_shape("msg-feat"@, Shape::Text("feat: …"@, sv_muted(sv_text_xs(no_style()))));
        let fix = preset_shape("msg-fix"@, Shape::Text("fix: …"@, sv_muted(sv_text_xs(no_style()))));
        let clear = preset_shape("msg-clear"@, Shape::Text("Clear"@, sv_color(sv_text_xs(no_style()), Color::StatusError)));
        assert(seq![].push(feat).push(fix) =~= seq![feat, fix]);
        assert(seq![].push(feat).push(fix).push(clear) =~= seq![feat, fix, clear]);
    }
    let mut label_text = "Commit".to_owned();
    proof {
        reveal_strlit("Commit");
        reveal_strlit(" ");
        reveal_strlit("Commit ");
        assert("Commit"@ + " "@ =~= "Commit "@);
    }
    if staged > 0 {
        label_text.append(" ");
        let n = usize_to_string(staged);
        label_text.append(n.as_str());
        label_text.append(" file");
        if staged != 1 {
            label_text.append("s");
        }
    }
    let ghost lt = label_text@;
    let button = commit_button(label_text, can_commit, handlers);
    let area = v_flex().p_3().gap_y(DefiniteLength::Px(F32_8));
    let ghost is = Shape::Input(input.id@, input.value@, opt_text(input.placeholder), input.disabled, style_v(input.style));
    let area = with_input(area, input);
    let ghost (ps, bs) = (div_shape(presets), div_shape(button));
    let area = with_div(area, presets);
    let area = with_div(area, button);
    assert(seq![].push(is).push(ps).push(bs) =~= seq![is, ps, bs]);
    assert(div_labels(area) =~= commit_area_labels(message@, staged as nat));
    assert(div_controls(area) =~= commit_area_controls(message@, staged as nat));
    assert(handlers@ =~= old(handlers)@ + clicks(commit_area_clicks(message@, staged as nat)));
    area
}

/// The texts of the top of the ready panel: version, branch, number of
/// changes and refresh button, and the open files heading with its count.
pub open spec fn top_labels(branch: Seq<char>, total: nat, open_count: nat) -> Seq<Shown> {
    seq![
        ("v0.1.2"@, Some(Color::TextMuted)),
        ("⎇"@, Some(Color::Accent)),
        (branch, None::<Color>),
        (decimal(total) + " changes"@, Some(Color::TextMuted)),
        ("↺"@, Some(Color::TextMuted)),
        ("Open Files"@, None::<Color>),
        (decimal(open_count), Some(Color::TextMuted)),
    ]
}

/// The style of the ready panel's column.
pub open spec fn git_column_style() -> StyleV {
    sv_overflow_y_scroll(sv_size_full(column_style()))
}

/// The shapes at the top of the ready panel: the version line; the branch,
/// the number of changes and the refresh button; a rule; and the heading of
/// the open files with their count.
#[verifier::opaque]
pub open spec fn top_children(branch: Seq<char>, total: nat, open_count: nat) -> Seq<Shape> {
    let version = plain(sv_justify_end(sv_py_1(sv_px_3(row_style()))), seq![Shape::Text("v0.1.2"@, sv_text_xs(sv_muted(no_style())))]);
    let branch_group = plain(sv_items_center(sv_gap_x(row_style(), DefiniteLength::Px(F32_6))), seq![
        Shape::Text("⎇"@, sv_color(no_style(), Color::Accent)),
        Shape::Text(branch, sv_bold(no_style())),
    ]);
    let changes_group = plain(sv_items_center(sv_gap_x(row_style(), DefiniteLength::Px(F32_6))), seq![
        Shape::Text(decimal(total) + " changes"@, sv_text_xs(sv_muted(no_style()))),
        refresh_button_shape(),
    ]);
    let header = plain(sv_justify_between(sv_items_center(sv_py_2(sv_px_3(row_style())))), seq![branch_group, changes_group]);
    let title = plain(sv_items_center(sv_gap_x(row_style(), DefiniteLength::Px(F32_4))), seq![
        Shape::Text("Open Files"@, sv_text_sm(sv_bold(no_style()))),
        count_badge_shape(open_count),
    ]);
    let files_header = plain(sv_justify_between(sv_items_center(sv_py_1(sv_px_3(row_style())))), seq![title]);
    seq![version, header, rule_shape(), files_header]
}

/// The top of the ready panel, down to the open files heading.
fn top_part(branch: &String, total: usize, open_count: usize, handlers: &mut HandlerRegistry<()>) -> (r: Div)
    ensures
        r.id is None,
        div_labels(r) == top_labels(branch@, total as nat, open_count as nat),
        inner_controls(r) == seq!["refresh"@],
        div_size(r) == 17,
        div_shape(r) == plain(git_column_style(), top_children(branch@, total as nat, open_count as nat)),
        final(handlers)@ == old(handlers)@ + clicks(seq!["refresh"@]),
{
    proof {
        reveal(top_children);
    }
    let version = h_flex().px_3().py_1().justify_end();
    let l0 = Label::new("v0.1.2".to_owned()).muted().text_xs();
    let ghost a0 = label_shape(l0);
    let version = with_label(version, l0);
    assert(seq![].push(a0) =~= seq![a0]);
    let branch_group = h_flex().gap_x(DefiniteLength::Px(F32_6)).items_center();
    let l1 = Label::new("⎇".to_owned()).color(color_accent());
    let l2 = Label::new(branch.clone()).bold();
    let ghost (a1, a2) = (label_shape(l1), label_shape(l2));
    let branch_group = with_label(branch_group, l1);
    let branch_group = with_label(branch_group, l2);
    assert(seq![].push(a1).push(a2) =~= seq![a1, a2]);
    let mut changes = usize_to_string(total);
    changes.append(" changes");
    let changes_group = h_flex().gap_x(DefiniteLength::Px(F32_6)).items_center();
    let l3 = Label::new(changes).muted().text_xs();
    let ghost a3 = label_shape(l3);
    let changes_group = with_label(changes_group, l3);
    let changes_group = with_div(changes_group, refresh_button(handlers));
    assert(seq![].push(a3).push(refresh_button_shape()) =~= seq![a3, refresh_button_shape()]);
    let header = h_flex().px_3().py_2().items_center().justify_between();
    let ghost (g0, g1) = (div_shape(branch_group), div_shape(changes_group));
    let header = with_div(header, branch_group);
    let header = with_div(header, changes_group);
    assert(seq![].push(g0).push(g1) =~= seq![g0, g1]);
    let badge = div().px(Length::Px(F32_6)).py(Length::Px(F32_1)).rounded_full().bg(color_surface());
    let l4 = Label::new(usize_to_string(open_count)).text_xs().muted();
    let ghost a4 = label_shape(l4);
    let badge = with_label(badge, l4);
    assert(seq![].push(a4) =~= seq![a4]);
    let title = h_flex().gap_x(DefiniteLength::Px(F32_4)).items_center();
    let l5 = Label::new("Open Files".to_owned()).bold().text_sm();
    let ghost a5 = label_shape(l5);
    let title = with_label(title, l5);
    let ghost bs = div_shape(badge);
    let title = with_div(title, badge);
    assert(seq![].push(a5).push(bs) =~= seq![a5, bs]);
    let files_header = h_flex().px_3().py_1().items_center().justify_between();
    let ghost ts = div_shape(title);
    let files_header = with_div(files_header, title);
    assert(seq![].push(ts) =~= seq![ts]);
    let root = v_flex().size_full().overflow_y_scroll();
    let ghost (vs, hs, fs) = (div_shape(version), div_shape(header), div_shape(files_header));
    let root = with_div(root, version);
    let root = with_div(root, header);
    let root = with_div(root, rule());
    let root = with_div(root, files_header);
    assert(seq![].push(vs).push(hs).push(rule_shape()).push(fs) =~= seq![vs, hs, rule_shape(), fs]);
    assert(div_labels(root) =~= top_labels(branch@, total as nat, open_count as nat));
    assert(inner_controls(root) =~= seq!["refresh"@]);
    root
}

/// The texts of a section's body: nothing when collapsed, a notice when
/// empty, else the rows.
pub open spec fn section_body_labels(collapsed: bool, entries: Seq<(Seq<char>, FileStatus)>, notice: Seq<char>, action: Seq<char>) -> Seq<Shown> {
    if collapsed {
        Seq::empty()
    } else if entries.len() == 0 {
        seq![(notice, Some(Color::TextMuted))]
    } else {
        file_rows_labels(entries, action, entries.len() as int)
    }
}

/// The controls of a section's body.
pub open spec fn section_body_controls(collapsed: bool, n: nat, prefix: Seq<char>) -> Seq<Seq<char>> {
    if collapsed || n == 0 { Seq::empty() } else { row_ids(prefix, n as int) }
}

/// The shapes of a section's body: nothing when collapsed, the notice when
/// there are no entries, else the rows.
pub open spec fn section_body_shapes(collapsed: bool, notice: Seq<char>, rows: Seq<Shape>) -> Seq<Shape> {
    if collapsed {
        Seq::empty()
    } else if rows.len() == 0 {
        seq![plain(sv_py_2(sv_px_3(no_style())), seq![Shape::Text(notice, sv_italic(sv_text_xs(sv_muted(no_style()))))])]
    } else {
        rows
    }
}

/// Adds a section's body to the panel.
fn add_section_body(root: Div, collapsed: bool, rows: Vec<Div>, notice: &str, Ghost(entries): Ghost<Seq<(Seq<char>, FileStatus)>>, Ghost(action): Ghost<Seq<char>>, Ghost(prefix): Ghost<Seq<char>>) -> (r: Div)
    requires
        rows@.len() == entries.len(),
        divs_labels(rows@) == file_rows_labels(entries, action, entries.len() as int),
        divs_controls(rows@) == row_ids(prefix, entries.len() as int),
        divs_size(rows@) == 5 * entries.len(),
    ensures
        r.id == root.id,
        div_labels(r) == div_labels(root) + section_body_labels(collapsed, entries, notice@, action),
        inner_controls(r) == inner_controls(root) + section_body_controls(collapsed, entries.len(), prefix),
        div_size(r) <= div_size(root) + 2 + 5 * entries.len(),
        div_shape(r) == push_shapes(div_shape(root), section_body_shapes(collapsed, notice@, divs_shapes(rows@))),
{
    proof {
        lemma_div_shape_is_node(root);
    }
    if collapsed {
        assert(div_labels(root) + section_body_labels(collapsed, entries, notice@, action) =~= div_labels(root));
        assert(children_of(div_shape(root)) + Seq::<Shape>::empty() =~= children_of(div_shape(root)));
        assert(inner_controls(root) + section_body_controls(collapsed, entries.len(), prefix) =~= inner_controls(root));
        root
    } else if rows.len() == 0 {
        let n = div().px_3().py_2();
        let l = Label::new(notice.to_owned()).muted().text_xs().italic();
        let ghost a = label_shape(l);
        let n = with_label(n, l);
        assert(seq![].push(a) =~= seq![a]);
        let ghost ns = div_shape(n);
        let r = with_div(root, n);
        assert(children_of(div_shape(root)).push(ns) =~= children_of(div_shape(root)) + seq![ns]);
        assert(div_labels(r) =~= div_labels(root) + section_body_labels(collapsed, entries, notice@, action));
        assert(inner_controls(r) =~= inner_controls(root) + section_body_controls(collapsed, entries.len(), prefix));
        r
    } else {
        with_divs(root, rows)
    }
}

/// What the git panel shows in each state: a notice while loading or
/// without a repository; the error with a retry button; or the version,
/// branch and changes, the open files, the staged and unstaged sections and
/// the commit area.
pub open spec fn git_labels(p: GitPanel) -> Seq<Shown> {
    match p.state {
        GitState::Loading => seq![("Loading…"@, Some(Color::TextMuted))],
        GitState::NoRepo => seq![("No git repository found"@, Some(Color::TextMuted))],
        GitState::Error(e) => seq![("Error: "@ + e@, Some(Color::StatusError)), ("Retry"@, None::<Color>)],
        GitState::Ready => top_labels(p.branch@, p.staged@.len() + p.unstaged@.len(), p.open_files@.len())
            + open_file_rows_labels(p.open_files@, p.open_files@.len() as int)
            + section_header_labels(p.staged_collapsed, "Staged Changes"@, p.staged@.len(), "Unstage All"@, true)
            + section_body_labels(p.staged_collapsed, entry_views(p.staged@), "No staged changes"@, "−"@)
            + section_header_labels(p.unstaged_collapsed, "Unstaged Changes"@, p.unstaged@.len(), "Stage All"@, false)
            + section_body_labels(p.unstaged_collapsed, entry_views(p.unstaged@), "No unstaged changes"@, "+"@)
            + commit_area_labels(p.commit_message@, p.staged@.len()),
    }
}

/// The controls of the git panel in each state.
pub open spec fn git_controls(p: GitPanel) -> Seq<Seq<char>> {
    match p.state {
        GitState::Loading | GitState::NoRepo => Seq::empty(),
        GitState::Error(_) => seq!["refresh"@],
        GitState::Ready => seq!["refresh"@]
            + section_header_controls("toggle-staged"@, p.staged@.len(), "unstage-all"@)
            + section_body_controls(p.staged_collapsed, p.staged@.len(), unstage_file_prefix())
            + section_header_controls("toggle-unstaged"@, p.unstaged@.len(), "stage-all"@)
            + section_body_controls(p.unstaged_collapsed, p.unstaged@.len(), stage_file_prefix())
            + commit_area_controls(p.commit_message@, p.staged@.len()),
    }
}

/// The order in which a render registers click handlers: every file row
/// (staged, then unstaged, collapsed or not) is built first, then the
/// buttons from top to bottom.
pub open spec fn git_registrations(p: GitPanel) -> Seq<Seq<char>> {
    match p.state {
        GitState::Loading | GitState::NoRepo => Seq::empty(),
        GitState::Error(_) => seq!["refresh"@],
        GitState::Ready => row_ids(unstage_file_prefix(), p.staged@.len() as int)
            + row_ids(stage_file_prefix(), p.unstaged@.len() as int)
            + seq!["refresh"@]
            + section_header_controls("toggle-staged"@, p.staged@.len(), "unstage-all"@)
            + section_header_controls("toggle-unstaged"@, p.unstaged@.len(), "stage-all"@)
            + commit_area_clicks(p.commit_message@, p.staged@.len()),
    }
}

/// The shape of a centered muted notice filling the panel.
pub open spec fn notice_shape(text: Seq<char>) -> Shape {
    plain(sv_justify_center(sv_items_center(sv_size_full(column_style()))), seq![Shape::Text(text, sv_muted(no_style()))])
}

/// The shapes of the ready panel's column, top to bottom: the top part, the
/// open files, a rule, the staged section's header and body, a rule, the
/// unstaged section's header and body, a rule and the commit area.
pub open spec fn git_ready_children(p: GitPanel) -> Seq<Shape> {
    top_children(p.branch@, p.staged@.len() + p.unstaged@.len(), p.open_files@.len())
        + open_file_rows_shapes(p.open_files@)
        + seq![rule_shape(), section_header_shape("toggle-staged"@, p.staged_collapsed, "Staged Changes"@, p.staged@.len(), "unstage-all"@, "Unstage All"@, true)]
        + section_body_shapes(p.staged_collapsed, "No staged changes"@, file_rows_shapes(unstage_file_prefix(), entry_views(p.staged@), "−"@))
        + seq![rule_shape(), section_header_shape("toggle-unstaged"@, p.unstaged_collapsed, "Unstaged Changes"@, p.unstaged@.len(), "stage-all"@, "Stage All"@, false)]
        + section_body_shapes(p.unstaged_collapsed, "No unstaged changes"@, file_rows_shapes(stage_file_prefix(), entry_views(p.unstaged@), "+"@))
        + seq![rule_shape(), commit_area_shape(p.commit_message@, p.staged@.len())]
}

/// The shape of the git panel's whole tree: the notice while loading and
/// without a repository; the error view on an error; when ready, the column
/// of `git_ready_children`.
pub open spec fn git_view_claims(p: GitPanel, s: Shape) -> bool {
    match p.state {
        GitState::Loading => s == notice_shape("Loading…"@),
        GitState::NoRepo => s == notice_shape("No git repository found"@),
        GitState::Error(e) => s == error_view_shape("Error: "@ + e@),
        GitState::Ready => s == plain(git_column_style(), git_ready_children(p)),
    }
}

/// A centered muted notice filling the panel.
fn notice_view(text: &str) -> (r: Div)
    ensures
        div_shape(r) == notice_shape(text@),
        div_labels(r) == seq![(text@, Some(Color::TextMuted))],
        div_controls(r) == Seq::<Seq<char>>::empty(),
        div_size(r) == 2,
{
    let r = v_flex().size_full().items_center().justify_center();
    let l = Label::new(text.to_owned()).muted();
    let ghost ls = label_shape(l);
    let r = with_label(r, l);
    assert(seq![].push(ls) =~= seq![ls]);
    assert(div_controls(r) =~= Seq::<Seq<char>>::empty());
    r
}

impl GitPanel {
    /// The panel's element tree for its current state.
    #[verifier::rlimit(100)]
    pub fn view(&self, handlers: &mut HandlerRegistry<()>) -> (r: Div)
        requires
            self.staged@.len() + self.unstaged@.len() + self.open_files@.len() < 0x1000_0000,
        ensures
            div_labels(r) == git_labels(*self),
            div_controls(r) == git_controls(*self),
            div_size(r) <= 60 + 5 * (self.staged@.len() + self.unstaged@.len() + self.open_files@.len()),
            git_view_claims(*self, div_shape(r)),
            final(handlers)@ == old(handlers)@ + clicks(git_registrations(*self)),
    {
        match &self.state {
            GitState::Loading => {
                let r = notice_view("Loading…");
                assert(old(handlers)@ + clicks(git_registrations(*self)) =~= old(handlers)@);
                return r;
            },
            GitState::NoRepo => {
                let r = notice_view("No git repository found");
                assert(old(handlers)@ + clicks(git_registrations(*self)) =~= old(handlers)@);
                return r;
            },
            GitState::Error(err) => {
                return error_view(concat_str("Error: ", err.as_str()), handlers);
            },
            GitState::Ready => {},
        }
        let ghost h0 = handlers@;
        let staged_count = self.staged.len();
        let unstaged_count = self.unstaged.len();
        let staged_rows = file_rows(&self.staged, "unstage-file-", "−", handlers);
        let unstaged_rows = file_rows(&self.unstaged, "stage-file-", "+", handlers);
        let ghost h2 = handlers@;
        let root = top_part(&self.branch, staged_count + unstaged_count, self.open_files.len(), handlers);
        let ghost h3 = handlers@;
        let ghost st = git_column_style();
        let ghost c0 = top_children(self.branch@, (staged_count + unstaged_count) as nat, self.open_files@.len());
        let root = with_divs(root, open_file_rows(&self.open_files));
        let ghost c1 = c0 + open_file_rows_shapes(self.open_files@);
        assert(div_shape(root) == plain(st, c1));
        let root = with_div(root, rule());
        let sh = section_header("toggle-staged", self.staged_collapsed, "Staged Changes", staged_count, "unstage-all", "Unstage All", true, handlers);
        let ghost shs = div_shape(sh);
        let root = with_div(root, sh);
        let ghost h4 = handlers@;
        let root = add_section_body(root, self.staged_collapsed, staged_rows, "No staged changes", Ghost(entry_views(self.staged@)), Ghost("−"@), Ghost(unstage_file_prefix()));
        let ghost b1 = section_body_shapes(self.staged_collapsed, "No staged changes"@, file_rows_shapes(unstage_file_prefix(), entry_views(self.staged@), "−"@));
        let ghost c2 = c1.push(rule_shape()).push(shs) + b1;
        assert(div_shape(root) == plain(st, c2));
        let root = with_div(root, rule());
        let uh = section_header("toggle-unstaged", self.unstaged_collapsed, "Unstaged Changes", unstaged_count, "stage-all", "Stage All", false, handlers);
        let ghost uhs = div_shape(uh);
        let root = with_div(root, uh);
        let ghost h5 = handlers@;
        let root = add_section_body(root, self.unstaged_collapsed, unstaged_rows, "No unstaged changes", Ghost(entry_views(self.unstaged@)), Ghost("+"@), Ghost(stage_file_prefix()));
        let ghost b2 = section_body_shapes(self.unstaged_collapsed, "No unstaged changes"@, file_rows_shapes(stage_file_prefix(), entry_views(self.unstaged@), "+"@));
        let ghost c3 = c2.push(rule_shape()).push(uhs) + b2;
        assert(div_shape(root) == plain(st, c3));
        let root = with_div(root, rule());
        let area = commit_area(&self.commit_message, staged_count, handlers);
        let root = with_div(root, area);
        proof {
            assert(c3.push(rule_shape()).push(commit_area_shape(self.commit_message@, self.staged@.len())) =~= git_ready_children(*self));
        }
        proof {
            assert(div_labels(root) =~= git_labels(*self));
            assert(div_controls(root) =~= inner_controls(root));
            assert(div_controls(root) =~= git_controls(*self));
            assert(handlers@ =~= old(handlers)@ + clicks(git_registrations(*self)));
        }
        root
    }

    /// Renders the panel: clears the handlers of the previous render and
    /// flattens the panel's element tree.
    pub fn gui_render(&self, handlers: &mut HandlerRegistry<()>) -> (tree: UiTree)
        requires
            self.staged@.len() + self.unstaged@.len() + self.open_files@.len() < 0x1000_0000,
        ensures
            tree_well_formed(tree),
            tree.root == 0,
            exists|v: Div| #[trigger] is_flat(tree.nodes@, 0, AnyNode::Div(v)) && div_labels(v) == git_labels(*self)
                && div_controls(v) == git_controls(*self) && git_view_claims(*self, div_shape(v)),
            final(handlers)@ == clicks(git_registrations(*self)),
    {
        handlers.clear_handlers();
        let v = self.view(handlers);
        let ghost gv = v;
        assert(Seq::<(Seq<char>, HandlerKind, ())>::empty() + clicks(git_registrations(*self)) =~= clicks(git_registrations(*self)));
        let tree = render_tree(v);
        assert(is_flat(tree.nodes@, 0, AnyNode::Div(gv)));
        tree
    }
}

/// The queries the git panel answers.
#[derive(Clone, Copy, PartialEq, Eq, Structural, Debug)]
pub enum GitQuery {
    /// `git.status`, answered by `handle_git_status`.
    Status,
}

/// Routes a query to its handler by topic; a topic without a handler is an
/// error naming the topic.
pub fn route_query(topic: &str) -> (r: Result<GitQuery, String>)
    ensures
        topic@ == "git.status"@ ==> r == Ok::<GitQuery, String>(GitQuery::Status),
        topic@ != "git.status"@ ==> (r matches Err(e) && e@ == "no handler for topic: "@ + topic@),
{
    if str_eq(topic, "git.status") {
        Ok(GitQuery::Status)
    } else {
        Err(concat_str("no handler for topic: ", topic))
    }
}

} // verus!
