//! Properties that span several operations of the library: what a sequence
//! of calls leaves, what one call undoes, and how the ids a panel renders
//! lead back to the entries they were rendered for.
use vstd::prelude::*;
use crate::elements::UiTree;
use crate::flatten::{is_flat, lemma_flat_parent_links, node_size, parent_links};
use crate::ui::{AnyNode, Div};
use crate::commands::{separator_from, namespace_of, spec_is_hidden, without_extension, DynamicCommand, DynamicCommandRegistry};
use crate::events::{spec_dispatch, spec_handler_arg, HandlerArg, HandlerCall, HandlerKind, UiEvent};
use crate::elements::{Color, Hsla};
use crate::renderer::{spec_resolve_color, ThemeColor};
use crate::git_panel::{commit_area_controls, git_controls, section_body_controls, commit_area_clicks, git_registrations, row_ids, section_header_controls, spec_git_step, stage_file_prefix, unstage_file_prefix, GitOp, GitPanel, GitState, GitStep};
use vstd::seq_lib::lemma_no_dup_in_concat;
use crate::renderer::{spec_click_event, HostClick};
use crate::json::string_views;
use crate::outline::{classify_from, indent_width, name_after, spec_classify_line, symbol_rules, symbols_upto, SymbolKind};
use crate::panel::{extension_tab_ids, lemma_position_from_bounds, lemma_position_from_found, position_from};
use crate::project_panel::{hidden_by, is_collapsed, lemma_position_of_bounds, position_of, spec_visible_entries, toggled, visible_upto, FileEntry as ProjectEntry};
use crate::strings::{starts_with, before_any, end_non_ws, first_non_ws, is_white_space, trim_end, trim_start, trimmed};
use crate::text::{decimal, lemma_decimal_digits, lemma_indexed_id_round_trip, spec_parse_indexed_id};

verus! {

/// The four statuses that colours and theme slots can stand for.
#[derive(Clone, Copy, PartialEq, Eq, Structural, Debug)]
pub enum StatusKind {
    Error,
    Warning,
    Success,
    Info,
}


/// Dispatching to a registry that was just cleared calls nothing.
pub proof fn law_dispatch_after_clear<H>(id: Seq<char>, event: UiEvent)
    ensures
        spec_dispatch(Seq::<(Seq<char>, HandlerKind, H)>::empty(), id, event) == Seq::<HandlerCall>::empty(),
{
}

/// Every call that a dispatch makes is to a handler registered for the
/// event's element that accepts the event, with the argument that handler
/// takes; the calls come in registration order.
pub proof fn law_dispatch_calls_registered<H>(entries: Seq<(Seq<char>, HandlerKind, H)>, id: Seq<char>, event: UiEvent)
    requires
        entries.len() <= usize::MAX,
    ensures
        forall|k: int| 0 <= k < spec_dispatch(entries, id, event).len() ==> {
            let c = #[trigger] spec_dispatch(entries, id, event)[k];
            &&& c.index < entries.len()
            &&& entries[c.index as int].0 == id
            &&& spec_handler_arg(entries[c.index as int].1, event) == Some(c.arg)
        },
        forall|k: int, j: int| 0 <= k < j < spec_dispatch(entries, id, event).len() ==>
            spec_dispatch(entries, id, event)[k].index < spec_dispatch(entries, id, event)[j].index,
    decreases entries.len(),
{
    if entries.len() > 0 {
        law_dispatch_calls_registered(entries.drop_last(), id, event);
        let earlier = spec_dispatch(entries.drop_last(), id, event);
        let r = spec_dispatch(entries, id, event);
        let last = entries.last();
        assert forall|k: int| 0 <= k < earlier.len() implies (#[trigger] earlier[k]).index < entries.len() - 1
            && entries[earlier[k].index as int] == entries.drop_last()[earlier[k].index as int] by {
        }
        if last.0 == id && spec_handler_arg(last.1, event) is Some {
            let call = HandlerCall { index: (entries.len() - 1) as usize, arg: spec_handler_arg(last.1, event)->0 };
            assert(r == earlier.push(call));
            assert forall|k: int| 0 <= k < r.len() implies {
                let c = #[trigger] r[k];
                &&& c.index < entries.len()
                &&& entries[c.index as int].0 == id
                &&& spec_handler_arg(entries[c.index as int].1, event) == Some(c.arg)
            } by {
                if k < earlier.len() {
                    assert(r[k] == earlier[k]);
                } else {
                    assert(r[k] == call);
                }
            }
            assert forall|k: int, j: int| 0 <= k < j < r.len() implies r[k].index < r[j].index by {
                assert(r[k] == earlier[k]);
                if j < earlier.len() {
                    assert(r[j] == earlier[j]);
                } else {
                    assert(r[j] == call);
                }
            }
        } else {
            assert(r == earlier);
        }
    }
}

/// A handler registered for another element does not change what an event
/// from `id` calls.
pub proof fn law_dispatch_ignores_other_ids<H>(entries: Seq<(Seq<char>, HandlerKind, H)>, other: Seq<char>, kind: HandlerKind, h: H, id: Seq<char>, event: UiEvent)
    requires
        other != id,
    ensures
        spec_dispatch(entries.push((other, kind, h)), id, event) == spec_dispatch(entries, id, event),
{
    assert(entries.push((other, kind, h)).drop_last() =~= entries);
}

/// After an extension's commands are unregistered, none of its commands is
/// left, every other command is kept, and unregistering again changes
/// nothing.
pub proof fn law_unregister_extension(s: Seq<DynamicCommand>, extension_id: Seq<char>)
    ensures
        forall|k: int| 0 <= k < without_extension(s, extension_id).len() ==>
            (#[trigger] without_extension(s, extension_id)[k]).extension_id@ != extension_id,
        forall|k: int| 0 <= k < s.len() && (#[trigger] s[k]).extension_id@ != extension_id ==>
            without_extension(s, extension_id).contains(s[k]),
        without_extension(without_extension(s, extension_id), extension_id) == without_extension(s, extension_id),
    decreases s.len(),
{
    if s.len() > 0 {
        law_unregister_extension(s.drop_last(), extension_id);
        let kept = without_extension(s.drop_last(), extension_id);
        let last = s.last();
        if last.extension_id@ != extension_id {
            let r = kept.push(last);
            assert(r.drop_last() =~= kept);
            assert forall|k: int| 0 <= k < s.len() && (#[trigger] s[k]).extension_id@ != extension_id implies r.contains(s[k]) by {
                if k < s.len() - 1 {
                    assert(s.drop_last()[k] == s[k]);
                    let j = choose|j: int| 0 <= j < kept.len() && kept[j] == s[k];
                    assert(r[j] == s[k]);
                } else {
                    assert(r[r.len() - 1] == s[k]);
                }
            }
        } else {
            assert forall|k: int| 0 <= k < s.len() && (#[trigger] s[k]).extension_id@ != extension_id implies kept.contains(s[k]) by {
                assert(s.drop_last()[k] == s[k]);
            }
        }
    }
}

/// An action whose type was explicitly shown is never hidden, whatever is
/// hidden besides.
pub proof fn law_shown_types_are_visible(hidden_namespaces: Set<Seq<char>>, hidden_types: Set<u64>, shown_types: Set<u64>, name: Seq<char>, action_type: u64)
    requires
        shown_types.contains(action_type),
    ensures
        !spec_is_hidden(hidden_namespaces, hidden_types, shown_types, name, action_type),
{
}

/// Hiding a namespace hides every action in it whose type was not shown,
/// and showing the namespace again restores what was hidden before, when
/// the namespace was not hidden to begin with.
pub proof fn law_hide_then_show_namespace(hidden_namespaces: Set<Seq<char>>, hidden_types: Set<u64>, shown_types: Set<u64>, name: Seq<char>, action_type: u64)
    requires
        !shown_types.contains(action_type),
    ensures
        spec_is_hidden(hidden_namespaces.insert(namespace_of(name)), hidden_types, shown_types, name, action_type),
        !hidden_namespaces.contains(namespace_of(name)) ==> hidden_namespaces.insert(namespace_of(name)).remove(namespace_of(name)) == hidden_namespaces,
{
    if !hidden_namespaces.contains(namespace_of(name)) {
        assert(hidden_namespaces.insert(namespace_of(name)).remove(namespace_of(name)) =~= hidden_namespaces);
    }
}

/// Hiding action types and then showing the same types leaves each of them
/// visible: it ends up shown and no longer explicitly hidden.
pub proof fn law_hide_then_show_types(hidden_namespaces: Set<Seq<char>>, hidden_types: Set<u64>, shown_types: Set<u64>, types: Set<u64>, name: Seq<char>, action_type: u64)
    requires
        types.contains(action_type),
    ensures
        ({
            let hidden_after = hidden_types.union(types).difference(types);
            let shown_after = shown_types.difference(types).union(types);
            &&& !hidden_after.contains(action_type)
            &&& shown_after.contains(action_type)
            &&& !spec_is_hidden(hidden_namespaces, hidden_after, shown_after, name, action_type)
        }),
{
}

/// A click counts as a double click only when double clicks are wanted and
/// the button went down at least twice; a click from the keyboard is never
/// a double click.
pub proof fn law_double_click_needs_two_clicks(single: bool, double: bool, click: HostClick)
    ensures
        spec_click_event(single, double, click) matches Some(UiEvent::DoubleClicked(d)) ==> double && d.click_count >= 2,
        click is Keyboard ==> !(spec_click_event(single, double, click) matches Some(UiEvent::DoubleClicked(_))),
{
}

/// A click on the row that the git panel renders for the `i`-th unstaged
/// file stages that file, and one on the row of the `i`-th staged file
/// unstages it.
pub proof fn law_git_rows_lead_to_their_files(p: GitPanel, root: String, i: usize)
    ensures
        i < p.unstaged@.len() ==> spec_git_step(p, root, stage_file_prefix() + decimal(i as nat))
            == GitStep::Run(root, GitOp::StageFile(p.unstaged@[i as int].path)),
        i < p.staged@.len() ==> spec_git_step(p, root, unstage_file_prefix() + decimal(i as nat))
            == GitStep::Run(root, GitOp::UnstageFile(p.staged@[i as int].path)),
{
    lemma_indexed_id_round_trip(stage_file_prefix(), i);
    lemma_indexed_id_round_trip(unstage_file_prefix(), i);
    reveal_strlit("stage-file-");
    reveal_strlit("unstage-file-");
    reveal_strlit("refresh");
    reveal_strlit("stage-all");
    reveal_strlit("unstage-all");
    reveal_strlit("commit");
    let a = stage_file_prefix() + decimal(i as nat);
    let b = unstage_file_prefix() + decimal(i as nat);
    crate::text::lemma_decimal_digits(i as nat);
    assert(a.take(stage_file_prefix().len() as int) =~= stage_file_prefix());
    assert(a[0] == 's' && b[0] == 'u');
    assert(a != "refresh"@ && a != "stage-all"@ && a != "unstage-all"@ && a != "commit"@) by {
        assert(a[1] == 't' && a[5] == '-');
        assert("stage-all"@[6] == 'a');
        assert(a[6] == 'f');
        assert("refresh"@[0] == 'r');
        assert("unstage-all"@[0] == 'u');
        assert("commit"@[0] == 'c');
    }
    assert(b != "refresh"@ && b != "stage-all"@ && b != "unstage-all"@ && b != "commit"@) by {
        assert(b[8] == 'f');
        assert("unstage-all"@[8] == 'a');
        assert("refresh"@[0] == 'r');
        assert("stage-all"@[0] == 's');
        assert("commit"@[0] == 'c');
    }
    assert(!crate::strings::starts_with(b, stage_file_prefix())) by {
        assert(b[0] != stage_file_prefix()[0]);
        assert(b.take(stage_file_prefix().len() as int)[0] == b[0]);
    }
}

/// The active tab that a saved layout records is the active extension:
/// when the index is saved, the saved list holds the active extension's id
/// there, and at no earlier position.
pub proof fn law_saved_active_index_names_active_tab(tabs: Seq<Option<String>>, active: Seq<char>)
    ensures
        position_from(extension_tab_ids(tabs), active, 0) matches Some(k) ==> extension_tab_ids(tabs)[k] == active
            && forall|j: int| 0 <= j < k ==> extension_tab_ids(tabs)[j] != active,
        position_from(extension_tab_ids(tabs), active, 0) is None ==> !extension_tab_ids(tabs).contains(active),
{
    let ids = extension_tab_ids(tabs);
    lemma_position_from_bounds(ids, active, 0);
    lemma_position_from_first(ids, active, 0);
    if ids.contains(active) {
        let k = choose|k: int| 0 <= k < ids.len() && ids[k] == active;
        lemma_position_from_found(ids, active, 0, k);
    }
}

proof fn lemma_position_from_first(s: Seq<Seq<char>>, t: Seq<char>, i: int)
    requires
        0 <= i,
    ensures
        position_from(s, t, i) matches Some(k) ==> forall|j: int| i <= j < k ==> s[j] != t,
    decreases s.len() - i,
{
    if i < s.len() && s[i] != t {
        lemma_position_from_first(s, t, i + 1);
    }
}

/// Clicking a directory's row twice brings back its collapsed state: a
/// directory that was expanded becomes collapsed, and one that was
/// collapsed becomes expanded, as long as no directory is listed twice,
/// which toggling never causes.
pub proof fn law_toggle_flips_collapsed(dirs: Seq<String>, path: String)
    requires
        string_views(dirs).no_duplicates(),
    ensures
        toggled(dirs, path).contains(path@) == !string_views(dirs).contains(path@),
        toggled(dirs, path).no_duplicates(),
{
    lemma_position_of_bounds(dirs, path@, 0);
    let v = string_views(dirs);
    match position_of(dirs, path@, 0) {
        Some(p) => {
            assert(v[p] == path@);
            let r = string_views(dirs.remove(p));
            assert(r =~= v.remove(p));
            assert forall|k: int| 0 <= k < r.len() implies r[k] != path@ by {
                if k < p {
                    assert(r[k] == v[k]);
                } else {
                    assert(r[k] == v[k + 1]);
                }
            }
            assert forall|a: int, b: int| 0 <= a < b < r.len() implies r[a] != r[b] by {
                let a1 = if a < p { a } else { a + 1 };
                let b1 = if b < p { b } else { b + 1 };
                assert(r[a] == v[a1] && r[b] == v[b1]);
            }
        },
        None => {
            lemma_position_of_none(dirs, path@, 0);
            let r = string_views(dirs.push(path));
            assert(r =~= v.push(path@));
            assert(r[r.len() - 1] == path@);
            assert(!v.contains(path@));
            assert forall|a: int, b: int| 0 <= a < b < r.len() implies r[a] != r[b] by {
                if b == r.len() - 1 {
                    assert(r[a] == v[a]);
                } else {
                    assert(r[a] == v[a] && r[b] == v[b]);
                }
            }
        },
    }
}

proof fn lemma_position_of_none(dirs: Seq<String>, path: Seq<char>, i: int)
    requires
        0 <= i,
        position_of(dirs, path, i) is None,
    ensures
        forall|k: int| i <= k < dirs.len() ==> dirs[k]@ != path,
    decreases dirs.len() - i,
{
    if i < dirs.len() {
        lemma_position_of_none(dirs, path, i + 1);
    }
}

/// The ids `<prefix><index>` of `n` rows are pairwise different, and each
/// begins with the prefix.
proof fn lemma_row_ids_distinct(prefix: Seq<char>, n: int)
    requires
        0 <= n <= usize::MAX + 1,
    ensures
        row_ids(prefix, n).no_duplicates(),
        forall|k: int, t: int| 0 <= k < n && 0 <= t < prefix.len() ==> #[trigger] row_ids(prefix, n)[k][t] == prefix[t],
        forall|k: int| 0 <= k < n ==> (#[trigger] row_ids(prefix, n)[k]).len() > prefix.len(),
{
    let ids = row_ids(prefix, n);
    assert forall|i: int, j: int| 0 <= i < ids.len() && 0 <= j < ids.len() && i != j implies ids[i] != ids[j] by {
        lemma_indexed_id_round_trip(prefix, i as usize);
        lemma_indexed_id_round_trip(prefix, j as usize);
        assert((i as usize) as int == i);
        assert((j as usize) as int == j);
        assert(ids[i] == prefix + decimal(i as nat));
        assert(ids[j] == prefix + decimal(j as nat));
    }
    assert forall|k: int| 0 <= k < n implies (#[trigger] row_ids(prefix, n)[k]).len() > prefix.len() by {
        lemma_decimal_digits(k as nat);
    }
}

/// A render of the git panel registers each click handler under its own
/// id: no id is registered twice, so the handlers it leaves behind (which
/// replace all earlier ones) are one per control.
pub proof fn law_git_render_registers_each_id_once(p: GitPanel)
    ensures
        git_registrations(p).no_duplicates(),
{
    reveal_strlit("refresh");
    reveal_strlit("toggle-staged");
    reveal_strlit("unstage-all");
    reveal_strlit("toggle-unstaged");
    reveal_strlit("stage-all");
    reveal_strlit("msg-feat");
    reveal_strlit("msg-fix");
    reveal_strlit("msg-clear");
    reveal_strlit("commit");
    reveal_strlit("stage-file-");
    reveal_strlit("unstage-file-");
    match p.state {
        GitState::Ready => {
            let a = row_ids(unstage_file_prefix(), p.staged@.len() as int);
            let b = row_ids(stage_file_prefix(), p.unstaged@.len() as int);
            let c = seq!["refresh"@];
            let d = section_header_controls("toggle-staged"@, p.staged@.len(), "unstage-all"@);
            let e = section_header_controls("toggle-unstaged"@, p.unstaged@.len(), "stage-all"@);
            let f = commit_area_clicks(p.commit_message@, p.staged@.len());
            vstd::std_specs::vec::axiom_spec_len(&p.staged);
            vstd::std_specs::vec::axiom_spec_len(&p.unstaged);
            lemma_row_ids_distinct(unstage_file_prefix(), p.staged@.len() as int);
            lemma_row_ids_distinct(stage_file_prefix(), p.unstaged@.len() as int);
            assert forall|i: int, j: int| 0 <= i < a.len() && 0 <= j < b.len() implies a[i] != b[j] by {
                assert(a[i][0] == 'u' && b[j][0] == 's');
            }
            lemma_no_dup_in_concat(a, b);
            let ab = a + b;
            assert forall|i: int| 0 <= i < ab.len() implies (#[trigger] ab[i])[0] == 'u' || ab[i][0] == 's' by {
                if i < a.len() {
                    assert(ab[i] == a[i]);
                    assert(a[i][0] == 'u');
                } else {
                    assert(ab[i] == b[i - a.len()]);
                    assert(b[i - a.len()][0] == 's');
                }
            }
            assert forall|i: int| 0 <= i < ab.len() && ab[i][0] == 'u' implies (#[trigger] ab[i]).len() > 8 && ab[i][8] == 'f' by {
                if i < a.len() {
                    assert(ab[i] == a[i]);
                    assert(a[i][8] == 'f');
                } else {
                    assert(ab[i] == b[i - a.len()]);
                    assert(b[i - a.len()][0] == 's');
                }
            }
            assert forall|i: int| 0 <= i < ab.len() && ab[i][0] == 's' implies (#[trigger] ab[i]).len() > 6 && ab[i][6] == 'f' by {
                if i < a.len() {
                    assert(ab[i] == a[i]);
                    assert(a[i][0] == 'u');
                } else {
                    assert(ab[i] == b[i - a.len()]);
                    assert(b[i - a.len()][6] == 'f');
                }
            }
            let rest = c + d + e + f;
            assert(d.no_duplicates() && forall|k: int| 0 <= k < d.len() ==> (#[trigger] d[k] == "toggle-staged"@ || d[k] == "unstage-all"@)) by {
                if p.staged@.len() > 0 {
                    assert(d =~= seq!["toggle-staged"@, "unstage-all"@]);
                    assert("toggle-staged"@[0] != "unstage-all"@[0]);
                } else {
                    assert(d =~= seq!["toggle-staged"@]);
                }
            }
            assert(e.no_duplicates() && forall|k: int| 0 <= k < e.len() ==> (#[trigger] e[k] == "toggle-unstaged"@ || e[k] == "stage-all"@)) by {
                if p.unstaged@.len() > 0 {
                    assert(e =~= seq!["toggle-unstaged"@, "stage-all"@]);
                    assert("toggle-unstaged"@[0] != "stage-all"@[0]);
                } else {
                    assert(e =~= seq!["toggle-unstaged"@]);
                }
            }
            assert(f.no_duplicates() && forall|k: int| 0 <= k < f.len() ==> (#[trigger] f[k] == "msg-feat"@ || f[k] == "msg-fix"@ || f[k] == "msg-clear"@ || f[k] == "commit"@)) by {
                let f0 = seq!["msg-feat"@, "msg-fix"@];
                let f1 = if p.commit_message@.len() > 0 { seq!["msg-clear"@] } else { Seq::<Seq<char>>::empty() };
                let f2 = if p.staged@.len() > 0 && p.commit_message@.len() > 0 { seq!["commit"@] } else { Seq::<Seq<char>>::empty() };
                assert(f == f0 + f1 + f2);
                assert("msg-feat"@[5] != "msg-fix"@[5]);
                assert(f0.no_duplicates());
                lemma_no_dup_in_concat(f0, f1);
                let f01 = f0 + f1;
                assert forall|k: int| 0 <= k < f01.len() implies (#[trigger] f01[k])[0] == 'm' by {
                    if k < 2 { assert(f01[k] == f0[k]); } else { assert(f01[k] == f1[k - 2]); }
                }
                assert forall|i: int, j: int| 0 <= i < f01.len() && 0 <= j < f2.len() implies f01[i] != f2[j] by {
                    assert(f01[i][0] == 'm');
                    assert(f2[j][0] == 'c');
                }
                lemma_no_dup_in_concat(f01, f2);
                assert forall|k: int| 0 <= k < f.len() implies (#[trigger] f[k] == "msg-feat"@ || f[k] == "msg-fix"@ || f[k] == "msg-clear"@ || f[k] == "commit"@) by {
                    if k < f01.len() {
                        assert(f[k] == f01[k]);
                        if k < 2 { assert(f01[k] == f0[k]); } else { assert(f01[k] == f1[k - 2]); }
                    } else {
                        assert(f[k] == f2[k - f01.len()]);
                    }
                }
            }
            assert forall|i: int, j: int| 0 <= i < c.len() && 0 <= j < d.len() implies c[i] != d[j] by {
                assert(c[i][0] == 'r');
                assert(d[j][0] == 't' || d[j][0] == 'u');
            }
            lemma_no_dup_in_concat(c, d);
            let cd = c + d;
            assert forall|k: int| 0 <= k < cd.len() implies (#[trigger] cd[k] == "refresh"@ || cd[k] == "toggle-staged"@ || cd[k] == "unstage-all"@) by {
                if k < 1 { assert(cd[k] == c[k]); } else { assert(cd[k] == d[k - 1]); }
            }
            assert forall|i: int, j: int| 0 <= i < cd.len() && 0 <= j < e.len() implies cd[i] != e[j] by {
                assert(cd[i][0] == 'r' || cd[i][0] == 't' || cd[i][0] == 'u');
                assert(e[j][0] == 't' || e[j][0] == 's');
                if cd[i][0] == 't' && e[j][0] == 't' {
                    assert(cd[i][7] == 's' && e[j][7] == 'u');
                }
            }
            lemma_no_dup_in_concat(cd, e);
            let cde = cd + e;
            assert forall|k: int| 0 <= k < cde.len() implies (#[trigger] cde[k])[0] != 'm' && cde[k][0] != 'c' by {
                if k < cd.len() { assert(cde[k] == cd[k]); } else { assert(cde[k] == e[k - cd.len()]); }
            }
            assert forall|i: int, j: int| 0 <= i < cde.len() && 0 <= j < f.len() implies cde[i] != f[j] by {
                assert(f[j][0] == 'm' || f[j][0] == 'c');
            }
            lemma_no_dup_in_concat(cde, f);
            assert(rest == cde + f);
            assert forall|k: int| 0 <= k < rest.len() implies (#[trigger] rest[k])[0] != 'u' || rest[k][8] != 'f' by {
                if k < cde.len() {
                    assert(rest[k] == cde[k]);
                    if k < cd.len() { assert(cde[k] == cd[k]); if k < 1 { assert(cd[k] == c[k]); } else { assert(cd[k] == d[k - 1]); } } else { assert(cde[k] == e[k - cd.len()]); }
                } else {
                    assert(rest[k] == f[k - cde.len()]);
                }
            }
            assert forall|k: int| 0 <= k < rest.len() implies (#[trigger] rest[k])[0] != 's' || rest[k][6] != 'f' by {
                if k < cde.len() {
                    assert(rest[k] == cde[k]);
                    if k < cd.len() { assert(cde[k] == cd[k]); if k < 1 { assert(cd[k] == c[k]); } else { assert(cd[k] == d[k - 1]); } } else { assert(cde[k] == e[k - cd.len()]); }
                } else {
                    assert(rest[k] == f[k - cde.len()]);
                }
            }
            assert forall|i: int, j: int| 0 <= i < ab.len() && 0 <= j < rest.len() implies ab[i] != rest[j] by {
                let x = ab[i];
                let y = rest[j];
                if x[0] == 'u' {
                    assert(x[8] == 'f');
                    assert(y[0] != 'u' || y[8] != 'f');
                } else {
                    assert(x[6] == 'f');
                    assert(y[0] != 's' || y[6] != 'f');
                }
            }
            lemma_no_dup_in_concat(ab, rest);
            assert(git_registrations(p) =~= ab + rest);
        },
        _ => {},
    }
}

/// A registry that starts empty and registers `commands` one after the
/// other, in `states[0]` to `states[n]`, holds exactly those commands, in
/// the order they were registered; asking for its commands does not change
/// it.
pub proof fn law_registry_holds_what_was_registered(states: Seq<DynamicCommandRegistry>, commands: Seq<DynamicCommand>)
    requires
        states.len() == commands.len() + 1,
        states[0]@ == Seq::<DynamicCommand>::empty(),
        forall|k: int| 0 <= k < commands.len() ==> #[trigger] states[k + 1]@ == states[k]@.push(commands[k]),
    ensures
        states[commands.len() as int]@ == commands,
    decreases commands.len(),
{
    if commands.len() > 0 {
        let n = commands.len() - 1;
        law_registry_holds_what_was_registered(states.take(n + 1), commands.take(n));
        assert(states[n + 1]@ == states[n]@.push(commands[n]));
        assert(states.take(n + 1)[n] == states[n]);
        assert(commands.take(n).push(commands[n]) =~= commands);
    }
}

/// The click handlers that a render of the git panel leaves are exactly
/// those of the clickable containers it shows, that is its controls other
/// than the commit message input, when no section is collapsed (the rows of
/// a collapsed section register their handlers without being shown).
pub proof fn law_git_handlers_are_the_clickable_controls(p: GitPanel)
    requires
        p.state is Ready ==> !p.staged_collapsed && !p.unstaged_collapsed,
    ensures
        forall|x: Seq<char>| #[trigger] git_registrations(p).contains(x) <==> (git_controls(p).contains(x) && x != "commit-input"@),
{
    broadcast use vstd::seq_lib::lemma_seq_concat_contains_all_elements, vstd::seq_lib::lemma_seq_contains_after_push;
    reveal_strlit("commit-input");
    reveal_strlit("refresh");
    reveal_strlit("toggle-staged");
    reveal_strlit("unstage-all");
    reveal_strlit("toggle-unstaged");
    reveal_strlit("stage-all");
    reveal_strlit("msg-feat");
    reveal_strlit("msg-fix");
    reveal_strlit("msg-clear");
    reveal_strlit("commit");
    reveal_strlit("stage-file-");
    reveal_strlit("unstage-file-");
    match p.state {
        GitState::Ready => {
            vstd::std_specs::vec::axiom_spec_len(&p.staged);
            vstd::std_specs::vec::axiom_spec_len(&p.unstaged);
            let ns = p.staged@.len();
            let nu = p.unstaged@.len();
            let a = row_ids(unstage_file_prefix(), ns as int);
            let b = row_ids(stage_file_prefix(), nu as int);
            lemma_row_ids_distinct(unstage_file_prefix(), ns as int);
            lemma_row_ids_distinct(stage_file_prefix(), nu as int);
            assert(section_body_controls(false, ns, unstage_file_prefix()) =~= a);
            assert(section_body_controls(false, nu, stage_file_prefix()) =~= b);
            let m = p.commit_message@;
            let tail = (if m.len() > 0 { seq!["msg-clear"@] } else { Seq::<Seq<char>>::empty() })
                + (if ns > 0 && m.len() > 0 { seq!["commit"@] } else { Seq::<Seq<char>>::empty() });
            assert(commit_area_controls(m, ns) =~= seq!["commit-input"@] + (seq!["msg-feat"@, "msg-fix"@] + tail));
            assert(commit_area_clicks(m, ns) =~= seq!["msg-feat"@, "msg-fix"@] + tail);
            assert(!a.contains("commit-input"@)) by {
                if a.contains("commit-input"@) {
                    let k = choose|k: int| 0 <= k < a.len() && a[k] == "commit-input"@;
                    assert(a[k][0] == 'u');
                }
            }
            assert(!b.contains("commit-input"@)) by {
                if b.contains("commit-input"@) {
                    let k = choose|k: int| 0 <= k < b.len() && b[k] == "commit-input"@;
                    assert(b[k][0] == 's');
                }
            }
            let d = section_header_controls("toggle-staged"@, ns, "unstage-all"@);
            let e = section_header_controls("toggle-unstaged"@, nu, "stage-all"@);
            assert(!d.contains("commit-input"@)) by {
                if d.contains("commit-input"@) {
                    let k = choose|k: int| 0 <= k < d.len() && d[k] == "commit-input"@;
                    assert(d[k][0] != 'c');
                }
            }
            assert(!e.contains("commit-input"@)) by {
                if e.contains("commit-input"@) {
                    let k = choose|k: int| 0 <= k < e.len() && e[k] == "commit-input"@;
                    assert(e[k][0] != 'c');
                }
            }
            let f = seq!["msg-feat"@, "msg-fix"@] + tail;
            assert(!f.contains("commit-input"@)) by {
                if f.contains("commit-input"@) {
                    let k = choose|k: int| 0 <= k < f.len() && f[k] == "commit-input"@;
                    assert(f[k] == "msg-feat"@ || f[k] == "msg-fix"@ || f[k] == "msg-clear"@ || f[k] == "commit"@);
                    assert("commit"@.len() != "commit-input"@.len());
                }
            }
            let r1 = seq!["refresh"@];
            let ci = seq!["commit-input"@];
            assert(git_registrations(p) == a + b + r1 + d + e + f);
            assert(git_controls(p) == r1 + d + a + e + b + (ci + f));
            assert forall|x: Seq<char>| #[trigger] git_registrations(p).contains(x) <==> (git_controls(p).contains(x) && x != "commit-input"@) by {
                assert(r1.contains(x) <==> x == "refresh"@) by {
                    if x == "refresh"@ {
                        assert(r1[0] == x);
                    }
                }
                assert(ci.contains(x) <==> x == "commit-input"@) by {
                    if x == "commit-input"@ {
                        assert(ci[0] == x);
                    }
                }
                assert((a + b + r1 + d + e + f).contains(x) <==> a.contains(x) || b.contains(x) || r1.contains(x) || d.contains(x) || e.contains(x) || f.contains(x));
                assert((r1 + d + a + e + b + (ci + f)).contains(x) <==> r1.contains(x) || d.contains(x) || a.contains(x) || e.contains(x) || b.contains(x) || ci.contains(x) || f.contains(x));
            }
        },
        GitState::Error(_) => {
            let r1 = seq!["refresh"@];
            assert forall|x: Seq<char>| #[trigger] git_registrations(p).contains(x) <==> (git_controls(p).contains(x) && x != "commit-input"@) by {
                assert(r1.contains(x) <==> x == "refresh"@) by {
                    if x == "refresh"@ {
                        assert(r1[0] == x);
                    }
                }
                assert("refresh"@.len() != "commit-input"@.len());
            }
        },
        _ => {
            assert forall|x: Seq<char>| #[trigger] git_registrations(p).contains(x) <==> (git_controls(p).contains(x) && x != "commit-input"@) by {
                assert(git_registrations(p) =~= Seq::<Seq<char>>::empty());
                assert(git_controls(p) =~= Seq::<Seq<char>>::empty());
            }
        },
    }
}

/// A tree that `render_tree` builds from `root` lists the root as no
/// container's child and every other node as a child exactly once. With the
/// depth-first layout that `is_flat` states (each container first, then its
/// children's subtrees in insertion order, each child index pointing at its
/// subtree's first node, which carries the builder's data), every element of
/// the builder tree stands at exactly one index.
pub proof fn law_flattened_nodes_have_one_parent(t: UiTree, root: Div, m: int)
    requires
        t.root == 0,
        t.nodes@.len() == node_size(AnyNode::Div(root)),
        is_flat(t.nodes@, 0, AnyNode::Div(root)),
        node_size(AnyNode::Div(root)) <= u32::MAX as int + 1,
    ensures
        parent_links(t.nodes@, 0, t.nodes@.len() as int, m) == if 0 < m < t.nodes@.len() { 1nat } else { 0nat },
{
    lemma_flat_parent_links(t.nodes@, 0, AnyNode::Div(root), m);
}

/// Every handler registered under `i`'s element that accepts the event is
/// called by a dispatch of it.
proof fn lemma_dispatch_reaches<H>(entries: Seq<(Seq<char>, HandlerKind, H)>, id: Seq<char>, event: UiEvent, i: int)
    requires
        entries.len() <= usize::MAX,
        0 <= i < entries.len(),
        entries[i].0 == id,
        spec_handler_arg(entries[i].1, event) is Some,
    ensures
        exists|k: int| 0 <= k < spec_dispatch(entries, id, event).len() && (#[trigger] spec_dispatch(entries, id, event)[k]).index == i,
    decreases entries.len(),
{
    let earlier = spec_dispatch(entries.drop_last(), id, event);
    let r = spec_dispatch(entries, id, event);
    if i == entries.len() - 1 {
        assert(r[earlier.len() as int].index == i);
    } else {
        assert(entries.drop_last()[i] == entries[i]);
        lemma_dispatch_reaches(entries.drop_last(), id, event, i);
        let k = choose|k: int| 0 <= k < earlier.len() && (#[trigger] earlier[k]).index == i;
        assert(r[k] == earlier[k]);
    }
}

/// The event of the pointer entering (`true`) or leaving an element.
pub open spec fn hover_change(entered: bool) -> UiEvent {
    if entered {
        UiEvent::HoverStart
    } else {
        UiEvent::HoverEnd
    }
}

/// A hover handler learns whether the pointer entered its element or left
/// it: an event of entering (`entered`) or leaving the element `id` calls
/// exactly the hover handlers registered under `id`, each with `true` for
/// entering and `false` for leaving.
pub proof fn law_hover_handlers_learn_whether_the_pointer_entered<H>(entries: Seq<(Seq<char>, HandlerKind, H)>, id: Seq<char>, entered: bool)
    requires
        entries.len() <= usize::MAX,
    ensures
        forall|k: int| 0 <= k < spec_dispatch(entries, id, hover_change(entered)).len() ==> {
            let c = #[trigger] spec_dispatch(entries, id, hover_change(entered))[k];
            &&& c.arg == HandlerArg::Hover(entered)
            &&& c.index < entries.len()
            &&& entries[c.index as int].0 == id
            &&& entries[c.index as int].1 == HandlerKind::Hover
        },
        forall|i: int| 0 <= i < entries.len() && entries[i].0 == id && #[trigger] entries[i].1 == HandlerKind::Hover ==>
            exists|k: int| 0 <= k < spec_dispatch(entries, id, hover_change(entered)).len()
                && (#[trigger] spec_dispatch(entries, id, hover_change(entered))[k]).index == i,
{
    let event = hover_change(entered);
    law_dispatch_calls_registered(entries, id, event);
    assert forall|i: int| 0 <= i < entries.len() && entries[i].0 == id && #[trigger] entries[i].1 == HandlerKind::Hover implies
        exists|k: int| 0 <= k < spec_dispatch(entries, id, event).len() && (#[trigger] spec_dispatch(entries, id, event)[k]).index == i by {
        lemma_dispatch_reaches(entries, id, event, i);
    }
}

/// Where a `"::"` stands in `s`, starting at `i`.
pub open spec fn separator_at(s: Seq<char>, i: int) -> bool {
    0 <= i && i + 1 < s.len() && s[i] == ':' && s[i + 1] == ':'
}

proof fn lemma_separator_from_first(s: Seq<char>, i: int)
    requires
        0 <= i <= s.len(),
    ensures
        i <= separator_from(s, i) <= s.len(),
        forall|j: int| i <= j < separator_from(s, i) ==> !#[trigger] separator_at(s, j),
        separator_from(s, i) < s.len() ==> separator_at(s, separator_from(s, i)),
    decreases s.len() - i,
{
    if i + 1 < s.len() && !(s[i] == ':' && s[i + 1] == ':') {
        lemma_separator_from_first(s, i + 1);
    }
}

/// The namespace of an action name is its text before the first `"::"`:
/// the name begins with it, no `"::"` starts inside it, and `"::"` follows
/// it unless it is the whole name.
pub proof fn law_namespace_is_the_text_before_the_first_separator(name: Seq<char>)
    ensures
        namespace_of(name).len() <= name.len(),
        name.take(namespace_of(name).len() as int) == namespace_of(name),
        forall|j: int| 0 <= j < namespace_of(name).len() ==> !#[trigger] separator_at(name, j),
        namespace_of(name).len() < name.len() ==> separator_at(name, namespace_of(name).len() as int),
{
    lemma_separator_from_first(name, 0);
}

/// No directory of `dirs`, at any position, is a proper prefix of the path
/// of entry `i`.
pub open spec fn no_directory_hides(entries: Seq<ProjectEntry>, dirs: Seq<String>, i: int) -> bool {
    forall|k: int| 0 <= k < dirs.len() ==> !(starts_with(entries[i].path@, #[trigger] dirs[k]@) && entries[i].path@ != dirs[k]@)
}

/// The tree shows exactly the entries that no collapsed directory, at any
/// position of the collapsed list, contains as a proper prefix of their
/// path; it shows them in the order of the listing, each marked collapsed
/// exactly when its path is one of the collapsed directories.
pub proof fn law_visible_entries_are_those_no_collapsed_directory_hides(entries: Seq<ProjectEntry>, dirs: Seq<String>)
    requires
        entries.len() <= usize::MAX,
    ensures
        forall|j: int| 0 <= j < spec_visible_entries(entries, dirs).len() ==> {
            let (i, collapsed) = #[trigger] spec_visible_entries(entries, dirs)[j];
            &&& (i as int) < entries.len()
            &&& no_directory_hides(entries, dirs, i as int)
            &&& collapsed == exists|k: int| 0 <= k < dirs.len() && #[trigger] dirs[k]@ == entries[i as int].path@
        },
        forall|i: int| 0 <= i < entries.len() && #[trigger] no_directory_hides(entries, dirs, i) ==>
            exists|j: int| 0 <= j < spec_visible_entries(entries, dirs).len() && (#[trigger] spec_visible_entries(entries, dirs)[j]).0 == i,
        forall|j1: int, j2: int| 0 <= j1 < j2 < spec_visible_entries(entries, dirs).len() ==>
            spec_visible_entries(entries, dirs)[j1].0 < spec_visible_entries(entries, dirs)[j2].0,
{
    lemma_visible_upto(entries, dirs, entries.len() as int);
}

proof fn lemma_visible_upto(entries: Seq<ProjectEntry>, dirs: Seq<String>, n: int)
    requires
        0 <= n <= entries.len(),
        entries.len() <= usize::MAX,
    ensures
        forall|j: int| 0 <= j < visible_upto(entries, dirs, n).len() ==> {
            let (i, collapsed) = #[trigger] visible_upto(entries, dirs, n)[j];
            &&& (i as int) < n
            &&& no_directory_hides(entries, dirs, i as int)
            &&& collapsed == exists|k: int| 0 <= k < dirs.len() && #[trigger] dirs[k]@ == entries[i as int].path@
        },
        forall|i: int| 0 <= i < n && #[trigger] no_directory_hides(entries, dirs, i) ==>
            exists|j: int| 0 <= j < visible_upto(entries, dirs, n).len() && (#[trigger] visible_upto(entries, dirs, n)[j]).0 == i,
        forall|j1: int, j2: int| 0 <= j1 < j2 < visible_upto(entries, dirs, n).len() ==>
            visible_upto(entries, dirs, n)[j1].0 < visible_upto(entries, dirs, n)[j2].0,
    decreases n,
{
    if n > 0 {
        lemma_visible_upto(entries, dirs, n - 1);
        let prev = visible_upto(entries, dirs, n - 1);
        let cur = visible_upto(entries, dirs, n);
        let p = entries[n - 1].path@;
        if hidden_by(dirs, p) {
            assert(cur =~= prev);
            assert forall|i: int| 0 <= i < n && #[trigger] no_directory_hides(entries, dirs, i) implies
                exists|j: int| 0 <= j < cur.len() && (#[trigger] cur[j]).0 == i by {
                if i == n - 1 {
                    let k = choose|k: int| 0 <= k < dirs.len() && starts_with(p, #[trigger] dirs[k]@) && p != dirs[k]@;
                    assert(!(starts_with(entries[i].path@, dirs[k]@) && entries[i].path@ != dirs[k]@));
                    assert(false);
                }
            }
        } else {
            let e = ((n - 1) as usize, is_collapsed(dirs, p));
            assert(cur =~= prev.push(e));
            assert forall|j: int| 0 <= j < cur.len() implies {
                let (i, collapsed) = #[trigger] cur[j];
                &&& (i as int) < n
                &&& no_directory_hides(entries, dirs, i as int)
                &&& collapsed == exists|k: int| 0 <= k < dirs.len() && #[trigger] dirs[k]@ == entries[i as int].path@
            } by {
                if j < prev.len() {
                    assert(cur[j] == prev[j]);
                } else {
                    assert(cur[j] == e);
                    assert(((n - 1) as usize) as int == n - 1);
                }
            }
            assert forall|i: int| 0 <= i < n && #[trigger] no_directory_hides(entries, dirs, i) implies
                exists|j: int| 0 <= j < cur.len() && (#[trigger] cur[j]).0 == i by {
                if i == n - 1 {
                    assert(cur[prev.len() as int] == e);
                } else {
                    let j = choose|j: int| 0 <= j < prev.len() && (#[trigger] prev[j]).0 == i;
                    assert(cur[j] == prev[j]);
                }
            }
            assert forall|j1: int, j2: int| 0 <= j1 < j2 < cur.len() implies cur[j1].0 < cur[j2].0 by {
                assert(cur[j1] == prev[j1]);
                if j2 < prev.len() {
                    assert(cur[j2] == prev[j2]);
                } else {
                    assert(cur[j2] == e);
                }
            }
        }
    }
}

/// The status a colour names, if it names one.
pub open spec fn color_status(c: Color) -> Option<StatusKind> {
    match c {
        Color::StatusError => Some(StatusKind::Error),
        Color::StatusWarning => Some(StatusKind::Warning),
        Color::StatusSuccess => Some(StatusKind::Success),
        Color::StatusInfo => Some(StatusKind::Info),
        _ => None,
    }
}

/// The status a theme slot holds the colour of, if it holds one.
pub open spec fn slot_status(t: ThemeColor) -> Option<StatusKind> {
    match t {
        ThemeColor::StatusError => Some(StatusKind::Error),
        ThemeColor::StatusWarning => Some(StatusKind::Warning),
        ThemeColor::StatusSuccess => Some(StatusKind::Success),
        ThemeColor::StatusInfo => Some(StatusKind::Info),
        _ => None,
    }
}

/// A status colour resolves to the theme slot of the same status, and only
/// status colours resolve to status slots.
pub proof fn law_status_colors_resolve_to_their_own_slot(c: Color)
    ensures
        color_status(c) is Some ==> (spec_resolve_color(c) is Some && slot_status(spec_resolve_color(c)->0) == color_status(c)),
        (spec_resolve_color(c) is Some && slot_status(spec_resolve_color(c)->0) is Some) ==> color_status(c) == slot_status(spec_resolve_color(c)->0),
{
}

/// Different colours resolve to different theme slots, with one exception:
/// the accent colour and the accent text colour both read the theme's
/// accent text slot; a custom colour resolves to exactly its own value.
pub proof fn law_different_colors_resolve_to_different_slots(c1: Color, c2: Color)
    ensures
        spec_resolve_color(c1) is Some && spec_resolve_color(c1) == spec_resolve_color(c2) && c1 != c2 ==>
            (c1 == Color::Accent && c2 == Color::TextAccent) || (c1 == Color::TextAccent && c2 == Color::Accent),
        forall|h: Hsla| #[trigger] spec_resolve_color(Color::Hsla(h)) == Some(ThemeColor::Custom(h)),
{
}

/// A line is classified the same with or without surrounding white space.
pub proof fn law_classify_ignores_outer_whitespace(line: Seq<char>)
    ensures
        spec_classify_line(trimmed(line)) == spec_classify_line(line),
{
    lemma_trimmed_idempotent(line);
}

/// The name of a recognised declaration is never empty and has no white
/// space around it.
pub proof fn law_classified_names_are_trimmed(line: Seq<char>)
    ensures
        spec_classify_line(line) matches Some((_, n)) ==> n.len() > 0 && trimmed(n) == n,
{
    lemma_classify_from_names(trimmed(line), 0);
}

proof fn lemma_classify_from_names(t: Seq<char>, k: int)
    ensures
        classify_from(t, k) matches Some((_, n)) ==> n.len() > 0 && trimmed(n) == n,
    decreases symbol_rules().len() - k,
{
    if 0 <= k < symbol_rules().len() {
        let (prefix, kind, stops) = symbol_rules()[k];
        let rest = before_any(t.skip(prefix.len() as int), stops);
        lemma_trimmed_idempotent(rest);
        lemma_classify_from_names(t, k + 1);
    }
}

proof fn lemma_first_non_ws_stops(s: Seq<char>, i: int)
    requires
        0 <= i <= s.len(),
    ensures
        i <= first_non_ws(s, i) <= s.len(),
        first_non_ws(s, i) < s.len() ==> !is_white_space(s[first_non_ws(s, i)]),
    decreases s.len() - i,
{
    if i < s.len() && is_white_space(s[i]) {
        lemma_first_non_ws_stops(s, i + 1);
    }
}

proof fn lemma_end_non_ws_stops(s: Seq<char>, j: int)
    requires
        0 <= j <= s.len(),
    ensures
        0 <= end_non_ws(s, j) <= j,
        end_non_ws(s, j) > 0 ==> !is_white_space(s[end_non_ws(s, j) - 1]),
    decreases j,
{
    if j > 0 && is_white_space(s[j - 1]) {
        lemma_end_non_ws_stops(s, j - 1);
    }
}

/// Trimming twice is trimming once.
proof fn lemma_trimmed_idempotent(s: Seq<char>)
    ensures
        trimmed(trimmed(s)) == trimmed(s),
{
    lemma_first_non_ws_stops(s, 0);
    let u = trim_start(s);
    lemma_end_non_ws_stops(u, u.len() as int);
    let t = trimmed(s);
    assert(t == u.take(end_non_ws(u, u.len() as int)));
    if t.len() > 0 {
        assert(t[0] == u[0]);
        assert(!is_white_space(t[0]));
        assert(first_non_ws(t, 0) == 0);
        assert(t.skip(0) =~= t);
        assert(trim_start(t) == t);
        assert(t[t.len() - 1] == u[t.len() - 1]);
        assert(end_non_ws(t, t.len() as int) == t.len());
        assert(t.take(t.len() as int) =~= t);
    } else {
        assert(trim_start(t) =~= t);
        assert(trim_end(t) =~= t);
    }
}

/// The outline lists symbols in file order: their line numbers increase
/// strictly and lie between 1 and the number of lines.
pub proof fn law_symbols_in_file_order(lines: Seq<Seq<char>>, n: int)
    requires
        0 <= n <= lines.len(),
        lines.len() < u32::MAX,
    ensures
        forall|k: int| 0 <= k < symbols_upto(lines, n).len() ==> 1 <= (#[trigger] symbols_upto(lines, n)[k]).2 <= n,
        forall|a: int, b: int| 0 <= a < b < symbols_upto(lines, n).len() ==> symbols_upto(lines, n)[a].2 < symbols_upto(lines, n)[b].2,
    decreases n,
{
    if n > 0 {
        law_symbols_in_file_order(lines, n - 1);
        let prev = symbols_upto(lines, n - 1);
        let cur = symbols_upto(lines, n);
        match spec_classify_line(lines[n - 1]) {
            Some((k, name)) => {
                let e = (k, name, n as u32, (indent_width(lines[n - 1], 0) / 4) as u32);
                assert(cur == prev + seq![e]);
                assert forall|j: int| 0 <= j < cur.len() implies 1 <= (#[trigger] cur[j]).2 <= n by {
                    if j < prev.len() {
                        assert(cur[j] == prev[j]);
                    }
                }
                assert forall|a: int, b: int| 0 <= a < b < cur.len() implies cur[a].2 < cur[b].2 by {
                    assert(cur[a] == prev[a]);
                    if b < prev.len() {
                        assert(cur[b] == prev[b]);
                    }
                }
            },
            None => {
                assert(cur =~= prev);
            },
        }
    }
}

/// The name that the declaration form with keywords `p`, whose name ends at
/// the first of `stops`, reads from a line: the text of the trimmed line
/// after the keywords and before the first of `stops`, trimmed.
pub open spec fn declared_name(line: Seq<char>, p: Seq<char>, stops: Seq<char>) -> Seq<char> {
    trimmed(before_any(trimmed(line).skip(p.len() as int), stops))
}

/// Whether a line's trimmed text begins with the keywords `p` and the form
/// reads a non-empty name from it.
pub open spec fn declared_with(line: Seq<char>, p: Seq<char>, stops: Seq<char>) -> bool {
    starts_with(trimmed(line), p) && declared_name(line, p, stops).len() > 0
}

/// A text that begins with `p` does not begin with a `q` that differs from
/// `p` at a position both reach.
proof fn lemma_prefix_conflict(t: Seq<char>, p: Seq<char>, q: Seq<char>, d: int)
    requires
        starts_with(t, p),
        0 <= d < p.len(),
        d < q.len(),
        p[d] != q[d],
    ensures
        !starts_with(t, q),
{
    assert(t[d] == t.take(p.len() as int)[d]);
    if starts_with(t, q) {
        assert(t[d] == t.take(q.len() as int)[d]);
    }
}

/// The classification of `t` is made by the `k`-th declaration form when
/// that form matches with a non-empty name and no earlier one does.
proof fn lemma_classify_reaches(t: Seq<char>, k: int, j: int)
    requires
        0 <= j <= k < symbol_rules().len(),
        starts_with(t, symbol_rules()[k].0),
        name_after(t.skip(symbol_rules()[k].0.len() as int), symbol_rules()[k].2).len() > 0,
        forall|i: int| j <= i < k ==> !(starts_with(t, #[trigger] symbol_rules()[i].0)
            && name_after(t.skip(symbol_rules()[i].0.len() as int), symbol_rules()[i].2).len() > 0),
    ensures
        classify_from(t, j) == Some((symbol_rules()[k].1, name_after(t.skip(symbol_rules()[k].0.len() as int), symbol_rules()[k].2))),
    decreases k - j,
{
    if j < k {
        lemma_classify_reaches(t, k, j + 1);
    }
}

/// A line whose trimmed text begins with one of Rust's function keywords
/// (`pub(crate) fn `, `pub fn `, `async fn `, `pub async fn `, `fn `) and goes
/// on with a non-empty name declares a function of that name: the text
/// after the keywords up to the first of `(`, `<`, space or `{`, trimmed.
pub proof fn law_rust_function_declarations(line: Seq<char>)
    ensures
        declared_with(line, "pub(crate) fn "@, "(< {"@) ==>
            spec_classify_line(line) == Some((SymbolKind::Function, declared_name(line, "pub(crate) fn "@, "(< {"@))),
        declared_with(line, "pub fn "@, "(< {"@) ==>
            spec_classify_line(line) == Some((SymbolKind::Function, declared_name(line, "pub fn "@, "(< {"@))),
        declared_with(line, "async fn "@, "(< {"@) ==>
            spec_classify_line(line) == Some((SymbolKind::Function, declared_name(line, "async fn "@, "(< {"@))),
        declared_with(line, "pub async fn "@, "(< {"@) ==>
            spec_classify_line(line) == Some((SymbolKind::Function, declared_name(line, "pub async fn "@, "(< {"@))),
        declared_with(line, "fn "@, "(< {"@) ==>
            spec_classify_line(line) == Some((SymbolKind::Function, declared_name(line, "fn "@, "(< {"@))),
{
    reveal_strlit("async fn ");
    reveal_strlit("fn ");
    reveal_strlit("pub async fn ");
    reveal_strlit("pub fn ");
    reveal_strlit("pub(crate) fn ");
    let t = trimmed(line);
    if declared_with(line, "pub(crate) fn "@, "(< {"@) {
        assert(symbol_rules()[0] == ("pub(crate) fn "@, SymbolKind::Function, "(< {"@));
        lemma_classify_reaches(t, 0, 0);
    }
    if declared_with(line, "pub fn "@, "(< {"@) {
        assert(symbol_rules()[1] == ("pub fn "@, SymbolKind::Function, "(< {"@));
        lemma_prefix_conflict(t, "pub fn "@, "pub(crate) fn "@, 3);
        lemma_classify_reaches(t, 1, 0);
    }
    if declared_with(line, "async fn "@, "(< {"@) {
        assert(symbol_rules()[2] == ("async fn "@, SymbolKind::Function, "(< {"@));
        lemma_prefix_conflict(t, "async fn "@, "pub(crate) fn "@, 0);
        lemma_prefix_conflict(t, "async fn "@, "pub fn "@, 0);
        lemma_classify_reaches(t, 2, 0);
    }
    if declared_with(line, "pub async fn "@, "(< {"@) {
        assert(symbol_rules()[3] == ("pub async fn "@, SymbolKind::Function, "(< {"@));
        lemma_prefix_conflict(t, "pub async fn "@, "pub(crate) fn "@, 3);
        lemma_prefix_conflict(t, "pub async fn "@, "pub fn "@, 4);
        lemma_prefix_conflict(t, "pub async fn "@, "async fn "@, 0);
        lemma_classify_reaches(t, 3, 0);
    }
    if declared_with(line, "fn "@, "(< {"@) {
        assert(symbol_rules()[4] == ("fn "@, SymbolKind::Function, "(< {"@));
        lemma_prefix_conflict(t, "fn "@, "pub(crate) fn "@, 0);
        lemma_prefix_conflict(t, "fn "@, "pub fn "@, 0);
        lemma_prefix_conflict(t, "fn "@, "async fn "@, 0);
        lemma_prefix_conflict(t, "fn "@, "pub async fn "@, 0);
        lemma_classify_reaches(t, 4, 0);
    }
}

/// A line whose trimmed text begins with `struct `, `enum ` or `trait `, bare
/// or after `pub ` or `pub(crate) `, and goes on with a non-empty name
/// declares a struct, an enum or a trait of that name: the text after the
/// keywords up to the first of `(`, `<`, space or `{`, trimmed.
pub proof fn law_rust_struct_enum_trait_declarations(line: Seq<char>)
    ensures
        declared_with(line, "pub(crate) struct "@, "(< {"@) ==>
            spec_classify_line(line) == Some((SymbolKind::Struct, declared_name(line, "pub(crate) struct "@, "(< {"@))),
        declared_with(line, "pub struct "@, "(< {"@) ==>
            spec_classify_line(line) == Some((SymbolKind::Struct, declared_name(line, "pub struct "@, "(< {"@))),
        declared_with(line, "struct "@, "(< {"@) ==>
            spec_classify_line(line) == Some((SymbolKind::Struct, declared_name(line, "struct "@, "(< {"@))),
        declared_with(line, "pub(crate) enum "@, "(< {"@) ==>
            spec_classify_line(line) == Some((SymbolKind::Enum, declared_name(line, "pub(crate) enum "@, "(< {"@))),
        declared_with(line, "pub enum "@, "(< {"@) ==>
            spec_classify_line(line) == Some((SymbolKind::Enum, declared_name(line, "pub enum "@, "(< {"@))),
        declared_with(line, "enum "@, "(< {"@) ==>
            spec_classify_line(line) == Some((SymbolKind::Enum, declared_name(line, "enum "@, "(< {"@))),
        declared_with(line, "pub(crate) trait "@, "(< {"@) ==>
            spec_classify_line(line) == Some((SymbolKind::Trait, declared_name(line, "pub(crate) trait "@, "(< {"@))),
        declared_with(line, "pub trait "@, "(< {"@) ==>
            spec_classify_line(line) == Some((SymbolKind::Trait, declared_name(line, "pub trait "@, "(< {"@))),
        declared_with(line, "trait "@, "(< {"@) ==>
            spec_classify_line(line) == Some((SymbolKind::Trait, declared_name(line, "trait "@, "(< {"@))),
{
    reveal_strlit("async fn ");
    reveal_strlit("enum ");
    reveal_strlit("fn ");
    reveal_strlit("pub async fn ");
    reveal_strlit("pub enum ");
    reveal_strlit("pub fn ");
    reveal_strlit("pub struct ");
    reveal_strlit("pub trait ");
    reveal_strlit("pub(crate) enum ");
    reveal_strlit("pub(crate) fn ");
    reveal_strlit("pub(crate) struct ");
    reveal_strlit("pub(crate) trait ");
    reveal_strlit("struct ");
    reveal_strlit("trait ");
    let t = trimmed(line);
    if declared_with(line, "pub(crate) struct "@, "(< {"@) {
        assert(symbol_rules()[5] == ("pub(crate) struct "@, SymbolKind::Struct, "(< {"@));
        lemma_prefix_conflict(t, "pub(crate) struct "@, "pub(crate) fn "@, 11);
        lemma_prefix_conflict(t, "pub(crate) struct "@, "pub fn "@, 3);
        lemma_prefix_conflict(t, "pub(crate) struct "@, "async fn "@, 0);
        lemma_prefix_conflict(t, "pub(crate) struct "@, "pub async fn "@, 3);
        lemma_prefix_conflict(t, "pub(crate) struct "@, "fn "@, 0);
        lemma_classify_reaches(t, 5, 0);
    }
    if declared_with(line, "pub struct "@, "(< {"@) {
        assert(symbol_rules()[6] == ("pub struct "@, SymbolKind::Struct, "(< {"@));
        lemma_prefix_conflict(t, "pub struct "@, "pub(crate) fn "@, 3);
        lemma_prefix_conflict(t, "pub struct "@, "pub fn "@, 4);
        lemma_prefix_conflict(t, "pub struct "@, "async fn "@, 0);
        lemma_prefix_conflict(t, "pub struct "@, "pub async fn "@, 4);
        lemma_prefix_conflict(t, "pub struct "@, "fn "@, 0);
        lemma_prefix_conflict(t, "pub struct "@, "pub(crate) struct "@, 3);
        lemma_classify_reaches(t, 6, 0);
    }
    if declared_with(line, "struct "@, "(< {"@) {
        assert(symbol_rules()[7] == ("struct "@, SymbolKind::Struct, "(< {"@));
        lemma_prefix_conflict(t, "struct "@, "pub(crate) fn "@, 0);
        lemma_prefix_conflict(t, "struct "@, "pub fn "@, 0);
        lemma_prefix_conflict(t, "struct "@, "async fn "@, 0);
        lemma_prefix_conflict(t, "struct "@, "pub async fn "@, 0);
        lemma_prefix_conflict(t, "struct "@, "fn "@, 0);
        lemma_prefix_conflict(t, "struct "@, "pub(crate) struct "@, 0);
        lemma_prefix_conflict(t, "struct "@, "pub struct "@, 0);
        lemma_classify_reaches(t, 7, 0);
    }
    if declared_with(line, "pub(crate) enum "@, "(< {"@) {
        assert(symbol_rules()[8] == ("pub(crate) enum "@, SymbolKind::Enum, "(< {"@));
        lemma_prefix_conflict(t, "pub(crate) enum "@, "pub(crate) fn "@, 11);
        lemma_prefix_conflict(t, "pub(crate) enum "@, "pub fn "@, 3);
        lemma_prefix_conflict(t, "pub(crate) enum "@, "async fn "@, 0);
        lemma_prefix_conflict(t, "pub(crate) enum "@, "pub async fn "@, 3);
        lemma_prefix_conflict(t, "pub(crate) enum "@, "fn "@, 0);
        lemma_prefix_conflict(t, "pub(crate) enum "@, "pub(crate) struct "@, 11);
        lemma_prefix_conflict(t, "pub(crate) enum "@, "pub struct "@, 3);
        lemma_prefix_conflict(t, "pub(crate) enum "@, "struct "@, 0);
        lemma_classify_reaches(t, 8, 0);
    }
    if declared_with(line, "pub enum "@, "(< {"@) {
        assert(symbol_rules()[9] == ("pub enum "@, SymbolKind::Enum, "(< {"@));
        lemma_prefix_conflict(t, "pub enum "@, "pub(crate) fn "@, 3);
        lemma_prefix_conflict(t, "pub enum "@, "pub fn "@, 4);
        lemma_prefix_conflict(t, "pub enum "@, "async fn "@, 0);
        lemma_prefix_conflict(t, "pub enum "@, "pub async fn "@, 4);
        lemma_prefix_conflict(t, "pub enum "@, "fn "@, 0);
        lemma_prefix_conflict(t, "pub enum "@, "pub(crate) struct "@, 3);
        lemma_prefix_conflict(t, "pub enum "@, "pub struct "@, 4);
        lemma_prefix_conflict(t, "pub enum "@, "struct "@, 0);
        lemma_prefix_conflict(t, "pub enum "@, "pub(crate) enum "@, 3);
        lemma_classify_reaches(t, 9, 0);
    }
    if declared_with(line, "enum "@, "(< {"@) {
        assert(symbol_rules()[10] == ("enum "@, SymbolKind::Enum, "(< {"@));
        lemma_prefix_conflict(t, "enum "@, "pub(crate) fn "@, 0);
        lemma_prefix_conflict(t, "enum "@, "pub fn "@, 0);
        lemma_prefix_conflict(t, "enum "@, "async fn "@, 0);
        lemma_prefix_conflict(t, "enum "@, "pub async fn "@, 0);
        lemma_prefix_conflict(t, "enum "@, "fn "@, 0);
        lemma_prefix_conflict(t, "enum "@, "pub(crate) struct "@, 0);
        lemma_prefix_conflict(t, "enum "@, "pub struct "@, 0);
        lemma_prefix_conflict(t, "enum "@, "struct "@, 0);
        lemma_prefix_conflict(t, "enum "@, "pub(crate) enum "@, 0);
        lemma_prefix_conflict(t, "enum "@, "pub enum "@, 0);
        lemma_classify_reaches(t, 10, 0);
    }
    if declared_with(line, "pub(crate) trait "@, "(< {"@) {
        assert(symbol_rules()[11] == ("pub(crate) trait "@, SymbolKind::Trait, "(< {"@));
        lemma_prefix_conflict(t, "pub(crate) trait "@, "pub(crate) fn "@, 11);
        lemma_prefix_conflict(t, "pub(crate) trait "@, "pub fn "@, 3);
        lemma_prefix_conflict(t, "pub(crate) trait "@, "async fn "@, 0);
        lemma_prefix_conflict(t, "pub(crate) trait "@, "pub async fn "@, 3);
        lemma_prefix_conflict(t, "pub(crate) trait "@, "fn "@, 0);
        lemma_prefix_conflict(t, "pub(crate) trait "@, "pub(crate) struct "@, 11);
        lemma_prefix_conflict(t, "pub(crate) trait "@, "pub struct "@, 3);
        lemma_prefix_conflict(t, "pub(crate) trait "@, "struct "@, 0);
        lemma_prefix_conflict(t, "pub(crate) trait "@, "pub(crate) enum "@, 11);
        lemma_prefix_conflict(t, "pub(crate) trait "@, "pub enum "@, 3);
        lemma_prefix_conflict(t, "pub(crate) trait "@, "enum "@, 0);
        lemma_classify_reaches(t, 11, 0);
    }
    if declared_with(line, "pub trait "@, "(< {"@) {
        assert(symbol_rules()[12] == ("pub trait "@, SymbolKind::Trait, "(< {"@));
        lemma_prefix_conflict(t, "pub trait "@, "pub(crate) fn "@, 3);
        lemma_prefix_conflict(t, "pub trait "@, "pub fn "@, 4);
        lemma_prefix_conflict(t, "pub trait "@, "async fn "@, 0);
        lemma_prefix_conflict(t, "pub trait "@, "pub async fn "@, 4);
        lemma_prefix_conflict(t, "pub trait "@, "fn "@, 0);
        lemma_prefix_conflict(t, "pub trait "@, "pub(crate) struct "@, 3);
        lemma_prefix_conflict(t, "pub trait "@, "pub struct "@, 4);
        lemma_prefix_conflict(t, "pub trait "@, "struct "@, 0);
        lemma_prefix_conflict(t, "pub trait "@, "pub(crate) enum "@, 3);
        lemma_prefix_conflict(t, "pub trait "@, "pub enum "@, 4);
        lemma_prefix_conflict(t, "pub trait "@, "enum "@, 0);
        lemma_prefix_conflict(t, "pub trait "@, "pub(crate) trait "@, 3);
        lemma_classify_reaches(t, 12, 0);
    }
    if declared_with(line, "trait "@, "(< {"@) {
        assert(symbol_rules()[13] == ("trait "@, SymbolKind::Trait, "(< {"@));
        lemma_prefix_conflict(t, "trait "@, "pub(crate) fn "@, 0);
        lemma_prefix_conflict(t, "trait "@, "pub fn "@, 0);
        lemma_prefix_conflict(t, "trait "@, "async fn "@, 0);
        lemma_prefix_conflict(t, "trait "@, "pub async fn "@, 0);
        lemma_prefix_conflict(t, "trait "@, "fn "@, 0);
        lemma_prefix_conflict(t, "trait "@, "pub(crate) struct "@, 0);
        lemma_prefix_conflict(t, "trait "@, "pub struct "@, 0);
        lemma_prefix_conflict(t, "trait "@, "struct "@, 0);
        lemma_prefix_conflict(t, "trait "@, "pub(crate) enum "@, 0);
        lemma_prefix_conflict(t, "trait "@, "pub enum "@, 0);
        lemma_prefix_conflict(t, "trait "@, "enum "@, 0);
        lemma_prefix_conflict(t, "trait "@, "pub(crate) trait "@, 0);
        lemma_prefix_conflict(t, "trait "@, "pub trait "@, 0);
        lemma_classify_reaches(t, 13, 0);
    }
}

/// A line whose trimmed text begins with `type `, bare or after `pub ` or
/// `pub(crate) `, and goes on with a non-empty name declares a type of that
/// name: the text after the keywords up to the first of `(`, `<`, space, `=`
/// or `{`, trimmed.
pub proof fn law_rust_type_alias_declarations(line: Seq<char>)
    ensures
        declared_with(line, "pub(crate) type "@, "(< ={"@) ==>
            spec_classify_line(line) == Some((SymbolKind::Type, declared_name(line, "pub(crate) type "@, "(< ={"@))),
        declared_with(line, "pub type "@, "(< ={"@) ==>
            spec_classify_line(line) == Some((SymbolKind::Type, declared_name(line, "pub type "@, "(< ={"@))),
        declared_with(line, "type "@, "(< ={"@) ==>
            spec_classify_line(line) == Some((SymbolKind::Type, declared_name(line, "type "@, "(< ={"@))),
{
    reveal_strlit("async fn ");
    reveal_strlit("enum ");
    reveal_strlit("fn ");
    reveal_strlit("pub async fn ");
    reveal_strlit("pub enum ");
    reveal_strlit("pub fn ");
    reveal_strlit("pub struct ");
    reveal_strlit("pub trait ");
    reveal_strlit("pub type ");
    reveal_strlit("pub(crate) enum ");
    reveal_strlit("pub(crate) fn ");
    reveal_strlit("pub(crate) struct ");
    reveal_strlit("pub(crate) trait ");
    reveal_strlit("pub(crate) type ");
    reveal_strlit("struct ");
    reveal_strlit("trait ");
    reveal_strlit("type ");
    let t = trimmed(line);
    if declared_with(line, "pub(crate) type "@, "(< ={"@) {
        assert(symbol_rules()[14] == ("pub(crate) type "@, SymbolKind::Type, "(< ={"@));
        lemma_prefix_conflict(t, "pub(crate) type "@, "pub(crate) fn "@, 11);
        lemma_prefix_conflict(t, "pub(crate) type "@, "pub fn "@, 3);
        lemma_prefix_conflict(t, "pub(crate) type "@, "async fn "@, 0);
        lemma_prefix_conflict(t, "pub(crate) type "@, "pub async fn "@, 3);
        lemma_prefix_conflict(t, "pub(crate) type "@, "fn "@, 0);
        lemma_prefix_conflict(t, "pub(crate) type "@, "pub(crate) struct "@, 11);
        lemma_prefix_conflict(t, "pub(crate) type "@, "pub struct "@, 3);
        lemma_prefix_conflict(t, "pub(crate) type "@, "struct "@, 0);
        lemma_prefix_conflict(t, "pub(crate) type "@, "pub(crate) enum "@, 11);
        lemma_prefix_conflict(t, "pub(crate) type "@, "pub enum "@, 3);
        lemma_prefix_conflict(t, "pub(crate) type "@, "enum "@, 0);
        lemma_prefix_conflict(t, "pub(crate) type "@, "pub(crate) trait "@, 12);
        lemma_prefix_conflict(t, "pub(crate) type "@, "pub trait "@, 3);
        lemma_prefix_conflict(t, "pub(crate) type "@, "trait "@, 0);
        lemma_classify_reaches(t, 14, 0);
    }
    if declared_with(line, "pub type "@, "(< ={"@) {
        assert(symbol_rules()[15] == ("pub type "@, SymbolKind::Type, "(< ={"@));
        lemma_prefix_conflict(t, "pub type "@, "pub(crate) fn "@, 3);
        lemma_prefix_conflict(t, "pub type "@, "pub fn "@, 4);
        lemma_prefix_conflict(t, "pub type "@, "async fn "@, 0);
        lemma_prefix_conflict(t, "pub type "@, "pub async fn "@, 4);
        lemma_prefix_conflict(t, "pub type "@, "fn "@, 0);
        lemma_prefix_conflict(t, "pub type "@, "pub(crate) struct "@, 3);
        lemma_prefix_conflict(t, "pub type "@, "pub struct "@, 4);
        lemma_prefix_conflict(t, "pub type "@, "struct "@, 0);
        lemma_prefix_conflict(t, "pub type "@, "pub(crate) enum "@, 3);
        lemma_prefix_conflict(t, "pub type "@, "pub enum "@, 4);
        lemma_prefix_conflict(t, "pub type "@, "enum "@, 0);
        lemma_prefix_conflict(t, "pub type "@, "pub(crate) trait "@, 3);
        lemma_prefix_conflict(t, "pub type "@, "pub trait "@, 5);
        lemma_prefix_conflict(t, "pub type "@, "trait "@, 0);
        lemma_prefix_conflict(t, "pub type "@, "pub(crate) type "@, 3);
        lemma_classify_reaches(t, 15, 0);
    }
    if declared_with(line, "type "@, "(< ={"@) {
        assert(symbol_rules()[16] == ("type "@, SymbolKind::Type, "(< ={"@));
        lemma_prefix_conflict(t, "type "@, "pub(crate) fn "@, 0);
        lemma_prefix_conflict(t, "type "@, "pub fn "@, 0);
        lemma_prefix_conflict(t, "type "@, "async fn "@, 0);
        lemma_prefix_conflict(t, "type "@, "pub async fn "@, 0);
        lemma_prefix_conflict(t, "type "@, "fn "@, 0);
        lemma_prefix_conflict(t, "type "@, "pub(crate) struct "@, 0);
        lemma_prefix_conflict(t, "type "@, "pub struct "@, 0);
        lemma_prefix_conflict(t, "type "@, "struct "@, 0);
        lemma_prefix_conflict(t, "type "@, "pub(crate) enum "@, 0);
        lemma_prefix_conflict(t, "type "@, "pub enum "@, 0);
        lemma_prefix_conflict(t, "type "@, "enum "@, 0);
        lemma_prefix_conflict(t, "type "@, "pub(crate) trait "@, 0);
        lemma_prefix_conflict(t, "type "@, "pub trait "@, 0);
        lemma_prefix_conflict(t, "type "@, "trait "@, 1);
        lemma_prefix_conflict(t, "type "@, "pub(crate) type "@, 0);
        lemma_prefix_conflict(t, "type "@, "pub type "@, 0);
        lemma_classify_reaches(t, 16, 0);
    }
}

/// A line whose trimmed text begins with `impl ` declares an implementation
/// named by the text up to the first `{` or `<`; one that begins with `mod `,
/// bare or after `pub ` or `pub(crate) `, declares a module named by the text
/// up to the first space, `{` or `;`. In both the name is trimmed and must
/// not be empty.
pub proof fn law_impl_and_module_declarations(line: Seq<char>)
    ensures
        declared_with(line, "impl "@, "{<"@) ==>
            spec_classify_line(line) == Some((SymbolKind::Impl, declared_name(line, "impl "@, "{<"@))),
        declared_with(line, "pub(crate) mod "@, " {;"@) ==>
            spec_classify_line(line) == Some((SymbolKind::Module, declared_name(line, "pub(crate) mod "@, " {;"@))),
        declared_with(line, "pub mod "@, " {;"@) ==>
            spec_classify_line(line) == Some((SymbolKind::Module, declared_name(line, "pub mod "@, " {;"@))),
        declared_with(line, "mod "@, " {;"@) ==>
            spec_classify_line(line) == Some((SymbolKind::Module, declared_name(line, "mod "@, " {;"@))),
{
    reveal_strlit("async fn ");
    reveal_strlit("enum ");
    reveal_strlit("fn ");
    reveal_strlit("impl ");
    reveal_strlit("mod ");
    reveal_strlit("pub async fn ");
    reveal_strlit("pub enum ");
    reveal_strlit("pub fn ");
    reveal_strlit("pub mod ");
    reveal_strlit("pub struct ");
    reveal_strlit("pub trait ");
    reveal_strlit("pub type ");
    reveal_strlit("pub(crate) enum ");
    reveal_strlit("pub(crate) fn ");
    reveal_strlit("pub(crate) mod ");
    reveal_strlit("pub(crate) struct ");
    reveal_strlit("pub(crate) trait ");
    reveal_strlit("pub(crate) type ");
    reveal_strlit("struct ");
    reveal_strlit("trait ");
    reveal_strlit("type ");
    let t = trimmed(line);
    if declared_with(line, "impl "@, "{<"@) {
        assert(symbol_rules()[17] == ("impl "@, SymbolKind::Impl, "{<"@));
        lemma_prefix_conflict(t, "impl "@, "pub(crate) fn "@, 0);
        lemma_prefix_conflict(t, "impl "@, "pub fn "@, 0);
        lemma_prefix_conflict(t, "impl "@, "async fn "@, 0);
        lemma_prefix_conflict(t, "impl "@, "pub async fn "@, 0);
        lemma_prefix_conflict(t, "impl "@, "fn "@, 0);
        lemma_prefix_conflict(t, "impl "@, "pub(crate) struct "@, 0);
        lemma_prefix_conflict(t, "impl "@, "pub struct "@, 0);
        lemma_prefix_conflict(t, "impl "@, "struct "@, 0);
        lemma_prefix_conflict(t, "impl "@, "pub(crate) enum "@, 0);
        lemma_prefix_conflict(t, "impl "@, "pub enum "@, 0);
        lemma_prefix_conflict(t, "impl "@, "enum "@, 0);
        lemma_prefix_conflict(t, "impl "@, "pub(crate) trait "@, 0);
        lemma_prefix_conflict(t, "impl "@, "pub trait "@, 0);
        lemma_prefix_conflict(t, "impl "@, "trait "@, 0);
        lemma_prefix_conflict(t, "impl "@, "pub(crate) type "@, 0);
        lemma_prefix_conflict(t, "impl "@, "pub type "@, 0);
        lemma_prefix_conflict(t, "impl "@, "type "@, 0);
        lemma_classify_reaches(t, 17, 0);
    }
    if declared_with(line, "pub(crate) mod "@, " {;"@) {
        assert(symbol_rules()[18] == ("pub(crate) mod "@, SymbolKind::Module, " {;"@));
        lemma_prefix_conflict(t, "pub(crate) mod "@, "pub(crate) fn "@, 11);
        lemma_prefix_conflict(t, "pub(crate) mod "@, "pub fn "@, 3);
        lemma_prefix_conflict(t, "pub(crate) mod "@, "async fn "@, 0);
        lemma_prefix_conflict(t, "pub(crate) mod "@, "pub async fn "@, 3);
        lemma_prefix_conflict(t, "pub(crate) mod "@, "fn "@, 0);
        lemma_prefix_conflict(t, "pub(crate) mod "@, "pub(crate) struct "@, 11);
        lemma_prefix_conflict(t, "pub(crate) mod "@, "pub struct "@, 3);
        lemma_prefix_conflict(t, "pub(crate) mod "@, "struct "@, 0);
        lemma_prefix_conflict(t, "pub(crate) mod "@, "pub(crate) enum "@, 11);
        lemma_prefix_conflict(t, "pub(crate) mod "@, "pub enum "@, 3);
        lemma_prefix_conflict(t, "pub(crate) mod "@, "enum "@, 0);
        lemma_prefix_conflict(t, "pub(crate) mod "@, "pub(crate) trait "@, 11);
        lemma_prefix_conflict(t, "pub(crate) mod "@, "pub trait "@, 3);
        lemma_prefix_conflict(t, "pub(crate) mod "@, "trait "@, 0);
        lemma_prefix_conflict(t, "pub(crate) mod "@, "pub(crate) type "@, 11);
        lemma_prefix_conflict(t, "pub(crate) mod "@, "pub type "@, 3);
        lemma_prefix_conflict(t, "pub(crate) mod "@, "type "@, 0);
        lemma_prefix_conflict(t, "pub(crate) mod "@, "impl "@, 0);
        lemma_classify_reaches(t, 18, 0);
    }
    if declared_with(line, "pub mod "@, " {;"@) {
        assert(symbol_rules()[19] == ("pub mod "@, SymbolKind::Module, " {;"@));
        lemma_prefix_conflict(t, "pub mod "@, "pub(crate) fn "@, 3);
        lemma_prefix_conflict(t, "pub mod "@, "pub fn "@, 4);
        lemma_prefix_conflict(t, "pub mod "@, "async fn "@, 0);
        lemma_prefix_conflict(t, "pub mod "@, "pub async fn "@, 4);
        lemma_prefix_conflict(t, "pub mod "@, "fn "@, 0);
        lemma_prefix_conflict(t, "pub mod "@, "pub(crate) struct "@, 3);
        lemma_prefix_conflict(t, "pub mod "@, "pub struct "@, 4);
        lemma_prefix_conflict(t, "pub mod "@, "struct "@, 0);
        lemma_prefix_conflict(t, "pub mod "@, "pub(crate) enum "@, 3);
        lemma_prefix_conflict(t, "pub mod "@, "pub enum "@, 4);
        lemma_prefix_conflict(t, "pub mod "@, "enum "@, 0);
        lemma_prefix_conflict(t, "pub mod "@, "pub(crate) trait "@, 3);
        lemma_prefix_conflict(t, "pub mod "@, "pub trait "@, 4);
        lemma_prefix_conflict(t, "pub mod "@, "trait "@, 0);
        lemma_prefix_conflict(t, "pub mod "@, "pub(crate) type "@, 3);
        lemma_prefix_conflict(t, "pub mod "@, "pub type "@, 4);
        lemma_prefix_conflict(t, "pub mod "@, "type "@, 0);
        lemma_prefix_conflict(t, "pub mod "@, "impl "@, 0);
        lemma_prefix_conflict(t, "pub mod "@, "pub(crate) mod "@, 3);
        lemma_classify_reaches(t, 19, 0);
    }
    if declared_with(line, "mod "@, " {;"@) {
        assert(symbol_rules()[20] == ("mod "@, SymbolKind::Module, " {;"@));
        lemma_prefix_conflict(t, "mod "@, "pub(crate) fn "@, 0);
        lemma_prefix_conflict(t, "mod "@, "pub fn "@, 0);
        lemma_prefix_conflict(t, "mod "@, "async fn "@, 0);
        lemma_prefix_conflict(t, "mod "@, "pub async fn "@, 0);
        lemma_prefix_conflict(t, "mod "@, "fn "@, 0);
        lemma_prefix_conflict(t, "mod "@, "pub(crate) struct "@, 0);
        lemma_prefix_conflict(t, "mod "@, "pub struct "@, 0);
        lemma_prefix_conflict(t, "mod "@, "struct "@, 0);
        lemma_prefix_conflict(t, "mod "@, "pub(crate) enum "@, 0);
        lemma_prefix_conflict(t, "mod "@, "pub enum "@, 0);
        lemma_prefix_conflict(t, "mod "@, "enum "@, 0);
        lemma_prefix_conflict(t, "mod "@, "pub(crate) trait "@, 0);
        lemma_prefix_conflict(t, "mod "@, "pub trait "@, 0);
        lemma_prefix_conflict(t, "mod "@, "trait "@, 0);
        lemma_prefix_conflict(t, "mod "@, "pub(crate) type "@, 0);
        lemma_prefix_conflict(t, "mod "@, "pub type "@, 0);
        lemma_prefix_conflict(t, "mod "@, "type "@, 0);
        lemma_prefix_conflict(t, "mod "@, "impl "@, 0);
        lemma_prefix_conflict(t, "mod "@, "pub(crate) mod "@, 0);
        lemma_prefix_conflict(t, "mod "@, "pub mod "@, 0);
        lemma_classify_reaches(t, 20, 0);
    }
}

/// A line whose trimmed text begins with `const `, bare or after `pub ` or
/// `pub(crate) `, and goes on with a non-empty name declares a constant named
/// by the text up to the first `:` or space, trimmed.
pub proof fn law_constant_declarations(line: Seq<char>)
    ensures
        declared_with(line, "pub const "@, ": "@) ==>
            spec_classify_line(line) == Some((SymbolKind::Constant, declared_name(line, "pub const "@, ": "@))),
        declared_with(line, "pub(crate) const "@, ": "@) ==>
            spec_classify_line(line) == Some((SymbolKind::Constant, declared_name(line, "pub(crate) const "@, ": "@))),
        declared_with(line, "const "@, ": "@) ==>
            spec_classify_line(line) == Some((SymbolKind::Constant, declared_name(line, "const "@, ": "@))),
{
    reveal_strlit("async fn ");
    reveal_strlit("const ");
    reveal_strlit("enum ");
    reveal_strlit("fn ");
    reveal_strlit("impl ");
    reveal_strlit("mod ");
    reveal_strlit("pub async fn ");
    reveal_strlit("pub const ");
    reveal_strlit("pub enum ");
    reveal_strlit("pub fn ");
    reveal_strlit("pub mod ");
    reveal_strlit("pub struct ");
    reveal_strlit("pub trait ");
    reveal_strlit("pub type ");
    reveal_strlit("pub(crate) const ");
    reveal_strlit("pub(crate) enum ");
    reveal_strlit("pub(crate) fn ");
    reveal_strlit("pub(crate) mod ");
    reveal_strlit("pub(crate) struct ");
    reveal_strlit("pub(crate) trait ");
    reveal_strlit("pub(crate) type ");
    reveal_strlit("struct ");
    reveal_strlit("trait ");
    reveal_strlit("type ");
    let t = trimmed(line);
    if declared_with(line, "pub const "@, ": "@) {
        assert(symbol_rules()[21] == ("pub const "@, SymbolKind::Constant, ": "@));
        lemma_prefix_conflict(t, "pub const "@, "pub(crate) fn "@, 3);
        lemma_prefix_conflict(t, "pub const "@, "pub fn "@, 4);
        lemma_prefix_conflict(t, "pub const "@, "async fn "@, 0);
        lemma_prefix_conflict(t, "pub const "@, "pub async fn "@, 4);
        lemma_prefix_conflict(t, "pub const "@, "fn "@, 0);
        lemma_prefix_conflict(t, "pub const "@, "pub(crate) struct "@, 3);
        lemma_prefix_conflict(t, "pub const "@, "pub struct "@, 4);
        lemma_prefix_conflict(t, "pub const "@, "struct "@, 0);
        lemma_prefix_conflict(t, "pub const "@, "pub(crate) enum "@, 3);
        lemma_prefix_conflict(t, "pub const "@, "pub enum "@, 4);
        lemma_prefix_conflict(t, "pub const "@, "enum "@, 0);
        lemma_prefix_conflict(t, "pub const "@, "pub(crate) trait "@, 3);
        lemma_prefix_conflict(t, "pub const "@, "pub trait "@, 4);
        lemma_prefix_conflict(t, "pub const "@, "trait "@, 0);
        lemma_prefix_conflict(t, "pub const "@, "pub(crate) type "@, 3);
        lemma_prefix_conflict(t, "pub const "@, "pub type "@, 4);
        lemma_prefix_conflict(t, "pub const "@, "type "@, 0);
        lemma_prefix_conflict(t, "pub const "@, "impl "@, 0);
        lemma_prefix_conflict(t, "pub const "@, "pub(crate) mod "@, 3);
        lemma_prefix_conflict(t, "pub const "@, "pub mod "@, 4);
        lemma_prefix_conflict(t, "pub const "@, "mod "@, 0);
        lemma_classify_reaches(t, 21, 0);
    }
    if declared_with(line, "pub(crate) const "@, ": "@) {
        assert(symbol_rules()[22] == ("pub(crate) const "@, SymbolKind::Constant, ": "@));
        lemma_prefix_conflict(t, "pub(crate) const "@, "pub(crate) fn "@, 11);
        lemma_prefix_conflict(t, "pub(crate) const "@, "pub fn "@, 3);
        lemma_prefix_conflict(t, "pub(crate) const "@, "async fn "@, 0);
        lemma_prefix_conflict(t, "pub(crate) const "@, "pub async fn "@, 3);
        lemma_prefix_conflict(t, "pub(crate) const "@, "fn "@, 0);
        lemma_prefix_conflict(t, "pub(crate) const "@, "pub(crate) struct "@, 11);
        lemma_prefix_conflict(t, "pub(crate) const "@, "pub struct "@, 3);
        lemma_prefix_conflict(t, "pub(crate) const "@, "struct "@, 0);
        lemma_prefix_conflict(t, "pub(crate) const "@, "pub(crate) enum "@, 11);
        lemma_prefix_conflict(t, "pub(crate) const "@, "pub enum "@, 3);
        lemma_prefix_conflict(t, "pub(crate) const "@, "enum "@, 0);
        lemma_prefix_conflict(t, "pub(crate) const "@, "pub(crate) trait "@, 11);
        lemma_prefix_conflict(t, "pub(crate) const "@, "pub trait "@, 3);
        lemma_prefix_conflict(t, "pub(crate) const "@, "trait "@, 0);
        lemma_prefix_conflict(t, "pub(crate) const "@, "pub(crate) type "@, 11);
        lemma_prefix_conflict(t, "pub(crate) const "@, "pub type "@, 3);
        lemma_prefix_conflict(t, "pub(crate) const "@, "type "@, 0);
        lemma_prefix_conflict(t, "pub(crate) const "@, "impl "@, 0);
        lemma_prefix_conflict(t, "pub(crate) const "@, "pub(crate) mod "@, 11);
        lemma_prefix_conflict(t, "pub(crate) const "@, "pub mod "@, 3);
        lemma_prefix_conflict(t, "pub(crate) const "@, "mod "@, 0);
        lemma_prefix_conflict(t, "pub(crate) const "@, "pub const "@, 3);
        lemma_classify_reaches(t, 22, 0);
    }
    if declared_with(line, "const "@, ": "@) {
        assert(symbol_rules()[23] == ("const "@, SymbolKind::Constant, ": "@));
        lemma_prefix_conflict(t, "const "@, "pub(crate) fn "@, 0);
        lemma_prefix_conflict(t, "const "@, "pub fn "@, 0);
        lemma_prefix_conflict(t, "const "@, "async fn "@, 0);
        lemma_prefix_conflict(t, "const "@, "pub async fn "@, 0);
        lemma_prefix_conflict(t, "const "@, "fn "@, 0);
        lemma_prefix_conflict(t, "const "@, "pub(crate) struct "@, 0);
        lemma_prefix_conflict(t, "const "@, "pub struct "@, 0);
        lemma_prefix_conflict(t, "const "@, "struct "@, 0);
        lemma_prefix_conflict(t, "const "@, "pub(crate) enum "@, 0);
        lemma_prefix_conflict(t, "const "@, "pub enum "@, 0);
        lemma_prefix_conflict(t, "const "@, "enum "@, 0);
        lemma_prefix_conflict(t, "const "@, "pub(crate) trait "@, 0);
        lemma_prefix_conflict(t, "const "@, "pub trait "@, 0);
        lemma_prefix_conflict(t, "const "@, "trait "@, 0);
        lemma_prefix_conflict(t, "const "@, "pub(crate) type "@, 0);
        lemma_prefix_conflict(t, "const "@, "pub type "@, 0);
        lemma_prefix_conflict(t, "const "@, "type "@, 0);
        lemma_prefix_conflict(t, "const "@, "impl "@, 0);
        lemma_prefix_conflict(t, "const "@, "pub(crate) mod "@, 0);
        lemma_prefix_conflict(t, "const "@, "pub mod "@, 0);
        lemma_prefix_conflict(t, "const "@, "mod "@, 0);
        lemma_prefix_conflict(t, "const "@, "pub const "@, 0);
        lemma_prefix_conflict(t, "const "@, "pub(crate) const "@, 0);
        lemma_classify_reaches(t, 23, 0);
    }
}

/// Python and JavaScript declarations: `def `, `function `, `async function `,
/// `export function ` and `export async function ` declare a function named
/// by the text up to the first `(` or space; `class ` declares a class named
/// by the text up to the first of `(`, `:`, space or `{`. In each the name is
/// trimmed and must not be empty.
pub proof fn law_python_and_javascript_declarations(line: Seq<char>)
    ensures
        declared_with(line, "def "@, "( "@) ==>
            spec_classify_line(line) == Some((SymbolKind::Function, declared_name(line, "def "@, "( "@))),
        declared_with(line, "class "@, "(: {"@) ==>
            spec_classify_line(line) == Some((SymbolKind::Class, declared_name(line, "class "@, "(: {"@))),
        declared_with(line, "export function "@, "( "@) ==>
            spec_classify_line(line) == Some((SymbolKind::Function, declared_name(line, "export function "@, "( "@))),
        declared_with(line, "export async function "@, "( "@) ==>
            spec_classify_line(line) == Some((SymbolKind::Function, declared_name(line, "export async function "@, "( "@))),
        declared_with(line, "function "@, "( "@) ==>
            spec_classify_line(line) == Some((SymbolKind::Function, declared_name(line, "function "@, "( "@))),
        declared_with(line, "async function "@, "( "@) ==>
            spec_classify_line(line) == Some((SymbolKind::Function, declared_name(line, "async function "@, "( "@))),
{
    reveal_strlit("async fn ");
    reveal_strlit("async function ");
    reveal_strlit("class ");
    reveal_strlit("const ");
    reveal_strlit("def ");
    reveal_strlit("enum ");
    reveal_strlit("export async function ");
    reveal_strlit("export function ");
    reveal_strlit("fn ");
    reveal_strlit("function ");
    reveal_strlit("impl ");
    reveal_strlit("mod ");
    reveal_strlit("pub async fn ");
    reveal_strlit("pub const ");
    reveal_strlit("pub enum ");
    reveal_strlit("pub fn ");
    reveal_strlit("pub mod ");
    reveal_strlit("pub struct ");
    reveal_strlit("pub trait ");
    reveal_strlit("pub type ");
    reveal_strlit("pub(crate) const ");
    reveal_strlit("pub(crate) enum ");
    reveal_strlit("pub(crate) fn ");
    reveal_strlit("pub(crate) mod ");
    reveal_strlit("pub(crate) struct ");
    reveal_strlit("pub(crate) trait ");
    reveal_strlit("pub(crate) type ");
    reveal_strlit("struct ");
    reveal_strlit("trait ");
    reveal_strlit("type ");
    let t = trimmed(line);
    if declared_with(line, "def "@, "( "@) {
        assert(symbol_rules()[24] == ("def "@, SymbolKind::Function, "( "@));
        lemma_prefix_conflict(t, "def "@, "pub(crate) fn "@, 0);
        lemma_prefix_conflict(t, "def "@, "pub fn "@, 0);
        lemma_prefix_conflict(t, "def "@, "async fn "@, 0);
        lemma_prefix_conflict(t, "def "@, "pub async fn "@, 0);
        lemma_prefix_conflict(t, "def "@, "fn "@, 0);
        lemma_prefix_conflict(t, "def "@, "pub(crate) struct "@, 0);
        lemma_prefix_conflict(t, "def "@, "pub struct "@, 0);
        lemma_prefix_conflict(t, "def "@, "struct "@, 0);
        lemma_prefix_conflict(t, "def "@, "pub(crate) enum "@, 0);
        lemma_prefix_conflict(t, "def "@, "pub enum "@, 0);
        lemma_prefix_conflict(t, "def "@, "enum "@, 0);
        lemma_prefix_conflict(t, "def "@, "pub(crate) trait "@, 0);
        lemma_prefix_conflict(t, "def "@, "pub trait "@, 0);
        lemma_prefix_conflict(t, "def "@, "trait "@, 0);
        lemma_prefix_conflict(t, "def "@, "pub(crate) type "@, 0);
        lemma_prefix_conflict(t, "def "@, "pub type "@, 0);
        lemma_prefix_conflict(t, "def "@, "type "@, 0);
        lemma_prefix_conflict(t, "def "@, "impl "@, 0);
        lemma_prefix_conflict(t, "def "@, "pub(crate) mod "@, 0);
        lemma_prefix_conflict(t, "def "@, "pub mod "@, 0);
        lemma_prefix_conflict(t, "def "@, "mod "@, 0);
        lemma_prefix_conflict(t, "def "@, "pub const "@, 0);
        lemma_prefix_conflict(t, "def "@, "pub(crate) const "@, 0);
        lemma_prefix_conflict(t, "def "@, "const "@, 0);
        lemma_classify_reaches(t, 24, 0);
    }
    if declared_with(line, "class "@, "(: {"@) {
        assert(symbol_rules()[25] == ("class "@, SymbolKind::Class, "(: {"@));
        lemma_prefix_conflict(t, "class "@, "pub(crate) fn "@, 0);
        lemma_prefix_conflict(t, "class "@, "pub fn "@, 0);
        lemma_prefix_conflict(t, "class "@, "async fn "@, 0);
        lemma_prefix_conflict(t, "class "@, "pub async fn "@, 0);
        lemma_prefix_conflict(t, "class "@, "fn "@, 0);
        lemma_prefix_conflict(t, "class "@, "pub(crate) struct "@, 0);
        lemma_prefix_conflict(t, "class "@, "pub struct "@, 0);
        lemma_prefix_conflict(t, "class "@, "struct "@, 0);
        lemma_prefix_conflict(t, "class "@, "pub(crate) enum "@, 0);
        lemma_prefix_conflict(t, "class "@, "pub enum "@, 0);
        lemma_prefix_conflict(t, "class "@, "enum "@, 0);
        lemma_prefix_conflict(t, "class "@, "pub(crate) trait "@, 0);
        lemma_prefix_conflict(t, "class "@, "pub trait "@, 0);
        lemma_prefix_conflict(t, "class "@, "trait "@, 0);
        lemma_prefix_conflict(t, "class "@, "pub(crate) type "@, 0);
        lemma_prefix_conflict(t, "class "@, "pub type "@, 0);
        lemma_prefix_conflict(t, "class "@, "type "@, 0);
        lemma_prefix_conflict(t, "class "@, "impl "@, 0);
        lemma_prefix_conflict(t, "class "@, "pub(crate) mod "@, 0);
        lemma_prefix_conflict(t, "class "@, "pub mod "@, 0);
        lemma_prefix_conflict(t, "class "@, "mod "@, 0);
        lemma_prefix_conflict(t, "class "@, "pub const "@, 0);
        lemma_prefix_conflict(t, "class "@, "pub(crate) const "@, 0);
        lemma_prefix_conflict(t, "class "@, "const "@, 1);
        lemma_prefix_conflict(t, "class "@, "def "@, 0);
        lemma_classify_reaches(t, 25, 0);
    }
    if declared_with(line, "export function "@, "( "@) {
        assert(symbol_rules()[26] == ("export function "@, SymbolKind::Function, "( "@));
        lemma_prefix_conflict(t, "export function "@, "pub(crate) fn "@, 0);
        lemma_prefix_conflict(t, "export function "@, "pub fn "@, 0);
        lemma_prefix_conflict(t, "export function "@, "async fn "@, 0);
        lemma_prefix_conflict(t, "export function "@, "pub async fn "@, 0);
        lemma_prefix_conflict(t, "export function "@, "fn "@, 0);
        lemma_prefix_conflict(t, "export function "@, "pub(crate) struct "@, 0);
        lemma_prefix_conflict(t, "export function "@, "pub struct "@, 0);
        lemma_prefix_conflict(t, "export function "@, "struct "@, 0);
        lemma_prefix_conflict(t, "export function "@, "pub(crate) enum "@, 0);
        lemma_prefix_conflict(t, "export function "@, "pub enum "@, 0);
        lemma_prefix_conflict(t, "export function "@, "enum "@, 1);
        lemma_prefix_conflict(t, "export function "@, "pub(crate) trait "@, 0);
        lemma_prefix_conflict(t, "export function "@, "pub trait "@, 0);
        lemma_prefix_conflict(t, "export function "@, "trait "@, 0);
        lemma_prefix_conflict(t, "export function "@, "pub(crate) type "@, 0);
        lemma_prefix_conflict(t, "export function "@, "pub type "@, 0);
        lemma_prefix_conflict(t, "export function "@, "type "@, 0);
        lemma_prefix_conflict(t, "export function "@, "impl "@, 0);
        lemma_prefix_conflict(t, "export function "@, "pub(crate) mod "@, 0);
        lemma_prefix_conflict(t, "export function "@, "pub mod "@, 0);
        lemma_prefix_conflict(t, "export function "@, "mod "@, 0);
        lemma_prefix_conflict(t, "export function "@, "pub const "@, 0);
        lemma_prefix_conflict(t, "export function "@, "pub(crate) const "@, 0);
        lemma_prefix_conflict(t, "export function "@, "const "@, 0);
        lemma_prefix_conflict(t, "export function "@, "def "@, 0);
        lemma_prefix_conflict(t, "export function "@, "class "@, 0);
        lemma_classify_reaches(t, 26, 0);
    }
    if declared_with(line, "export async function "@, "( "@) {
        assert(symbol_rules()[27] == ("export async function "@, SymbolKind::Function, "( "@));
        lemma_prefix_conflict(t, "export async function "@, "pub(crate) fn "@, 0);
        lemma_prefix_conflict(t, "export async function "@, "pub fn "@, 0);
        lemma_prefix_conflict(t, "export async function "@, "async fn "@, 0);
        lemma_prefix_conflict(t, "export async function "@, "pub async fn "@, 0);
        lemma_prefix_conflict(t, "export async function "@, "fn "@, 0);
        lemma_prefix_conflict(t, "export async function "@, "pub(crate) struct "@, 0);
        lemma_prefix_conflict(t, "export async function "@, "pub struct "@, 0);
        lemma_prefix_conflict(t, "export async function "@, "struct "@, 0);
        lemma_prefix_conflict(t, "export async function "@, "pub(crate) enum "@, 0);
        lemma_prefix_conflict(t, "export async function "@, "pub enum "@, 0);
        lemma_prefix_conflict(t, "export async function "@, "enum "@, 1);
        lemma_prefix_conflict(t, "export async function "@, "pub(crate) trait "@, 0);
        lemma_prefix_conflict(t, "export async function "@, "pub trait "@, 0);
        lemma_prefix_conflict(t, "export async function "@, "trait "@, 0);
        lemma_prefix_conflict(t, "export async function "@, "pub(crate) type "@, 0);
        lemma_prefix_conflict(t, "export async function "@, "pub type "@, 0);
        lemma_prefix_conflict(t, "export async function "@, "type "@, 0);
        lemma_prefix_conflict(t, "export async function "@, "impl "@, 0);
        lemma_prefix_conflict(t, "export async function "@, "pub(crate) mod "@, 0);
        lemma_prefix_conflict(t, "export async function "@, "pub mod "@, 0);
        lemma_prefix_conflict(t, "export async function "@, "mod "@, 0);
        lemma_prefix_conflict(t, "export async function "@, "pub const "@, 0);
        lemma_prefix_conflict(t, "export async function "@, "pub(crate) const "@, 0);
        lemma_prefix_conflict(t, "export async function "@, "const "@, 0);
        lemma_prefix_conflict(t, "export async function "@, "def "@, 0);
        lemma_prefix_conflict(t, "export async function "@, "class "@, 0);
        lemma_prefix_conflict(t, "export async function "@, "export function "@, 7);
        lemma_classify_reaches(t, 27, 0);
    }
    if declared_with(line, "function "@, "( "@) {
        assert(symbol_rules()[28] == ("function "@, SymbolKind::Function, "( "@));
        lemma_prefix_conflict(t, "function "@, "pub(crate) fn "@, 0);
        lemma_prefix_conflict(t, "function "@, "pub fn "@, 0);
        lemma_prefix_conflict(t, "function "@, "async fn "@, 0);
        lemma_prefix_conflict(t, "function "@, "pub async fn "@, 0);
        lemma_prefix_conflict(t, "function "@, "fn "@, 1);
        lemma_prefix_conflict(t, "function "@, "pub(crate) struct "@, 0);
        lemma_prefix_conflict(t, "function "@, "pub struct "@, 0);
        lemma_prefix_conflict(t, "function "@, "struct "@, 0);
        lemma_prefix_conflict(t, "function "@, "pub(crate) enum "@, 0);
        lemma_prefix_conflict(t, "function "@, "pub enum "@, 0);
        lemma_prefix_conflict(t, "function "@, "enum "@, 0);
        lemma_prefix_conflict(t, "function "@, "pub(crate) trait "@, 0);
        lemma_prefix_conflict(t, "function "@, "pub trait "@, 0);
        lemma_prefix_conflict(t, "function "@, "trait "@, 0);
        lemma_prefix_conflict(t, "function "@, "pub(crate) type "@, 0);
        lemma_prefix_conflict(t, "function "@, "pub type "@, 0);
        lemma_prefix_conflict(t, "function "@, "type "@, 0);
        lemma_prefix_conflict(t, "function "@, "impl "@, 0);
        lemma_prefix_conflict(t, "function "@, "pub(crate) mod "@, 0);
        lemma_prefix_conflict(t, "function "@, "pub mod "@, 0);
        lemma_prefix_conflict(t, "function "@, "mod "@, 0);
        lemma_prefix_conflict(t, "function "@, "pub const "@, 0);
        lemma_prefix_conflict(t, "function "@, "pub(crate) const "@, 0);
        lemma_prefix_conflict(t, "function "@, "const "@, 0);
        lemma_prefix_conflict(t, "function "@, "def "@, 0);
        lemma_prefix_conflict(t, "function "@, "class "@, 0);
        lemma_prefix_conflict(t, "function "@, "export function "@, 0);
        lemma_prefix_conflict(t, "function "@, "export async function "@, 0);
        lemma_classify_reaches(t, 28, 0);
    }
    if declared_with(line, "async function "@, "( "@) {
        assert(symbol_rules()[29] == ("async function "@, SymbolKind::Function, "( "@));
        lemma_prefix_conflict(t, "async function "@, "pub(crate) fn "@, 0);
        lemma_prefix_conflict(t, "async function "@, "pub fn "@, 0);
        lemma_prefix_conflict(t, "async function "@, "async fn "@, 7);
        lemma_prefix_conflict(t, "async function "@, "pub async fn "@, 0);
        lemma_prefix_conflict(t, "async function "@, "fn "@, 0);
        lemma_prefix_conflict(t, "async function "@, "pub(crate) struct "@, 0);
        lemma_prefix_conflict(t, "async function "@, "pub struct "@, 0);
        lemma_prefix_conflict(t, "async function "@, "struct "@, 0);
        lemma_prefix_conflict(t, "async function "@, "pub(crate) enum "@, 0);
        lemma_prefix_conflict(t, "async function "@, "pub enum "@, 0);
        lemma_prefix_conflict(t, "async function "@, "enum "@, 0);
        lemma_prefix_conflict(t, "async function "@, "pub(crate) trait "@, 0);
        lemma_prefix_conflict(t, "async function "@, "pub trait "@, 0);
        lemma_prefix_conflict(t, "async function "@, "trait "@, 0);
        lemma_prefix_conflict(t, "async function "@, "pub(crate) type "@, 0);
        lemma_prefix_conflict(t, "async function "@, "pub type "@, 0);
        lemma_prefix_conflict(t, "async function "@, "type "@, 0);
        lemma_prefix_conflict(t, "async function "@, "impl "@, 0);
        lemma_prefix_conflict(t, "async function "@, "pub(crate) mod "@, 0);
        lemma_prefix_conflict(t, "async function "@, "pub mod "@, 0);
        lemma_prefix_conflict(t, "async function "@, "mod "@, 0);
        lemma_prefix_conflict(t, "async function "@, "pub const "@, 0);
        lemma_prefix_conflict(t, "async function "@, "pub(crate) const "@, 0);
        lemma_prefix_conflict(t, "async function "@, "const "@, 0);
        lemma_prefix_conflict(t, "async function "@, "def "@, 0);
        lemma_prefix_conflict(t, "async function "@, "class "@, 0);
        lemma_prefix_conflict(t, "async function "@, "export function "@, 0);
        lemma_prefix_conflict(t, "async function "@, "export async function "@, 0);
        lemma_prefix_conflict(t, "async function "@, "function "@, 0);
        lemma_classify_reaches(t, 29, 0);
    }
}

/// Go declarations: `func ` declares a function named by the text up to the
/// first `(` or space; a `type ` line that no Rust form names declares a type
/// named by the text up to the first space. In each the name is trimmed and
/// must not be empty.
pub proof fn law_go_declarations(line: Seq<char>)
    ensures
        declared_with(line, "func "@, "( "@) ==>
            spec_classify_line(line) == Some((SymbolKind::Function, declared_name(line, "func "@, "( "@))),
        declared_with(line, "type "@, " "@) && !declared_with(line, "type "@, "(< ={"@) ==>
            spec_classify_line(line) == Some((SymbolKind::Type, declared_name(line, "type "@, " "@))),
{
    reveal_strlit("async fn ");
    reveal_strlit("async function ");
    reveal_strlit("class ");
    reveal_strlit("const ");
    reveal_strlit("def ");
    reveal_strlit("enum ");
    reveal_strlit("export async function ");
    reveal_strlit("export function ");
    reveal_strlit("fn ");
    reveal_strlit("func ");
    reveal_strlit("function ");
    reveal_strlit("impl ");
    reveal_strlit("mod ");
    reveal_strlit("pub async fn ");
    reveal_strlit("pub const ");
    reveal_strlit("pub enum ");
    reveal_strlit("pub fn ");
    reveal_strlit("pub mod ");
    reveal_strlit("pub struct ");
    reveal_strlit("pub trait ");
    reveal_strlit("pub type ");
    reveal_strlit("pub(crate) const ");
    reveal_strlit("pub(crate) enum ");
    reveal_strlit("pub(crate) fn ");
    reveal_strlit("pub(crate) mod ");
    reveal_strlit("pub(crate) struct ");
    reveal_strlit("pub(crate) trait ");
    reveal_strlit("pub(crate) type ");
    reveal_strlit("struct ");
    reveal_strlit("trait ");
    reveal_strlit("type ");
    let t = trimmed(line);
    if declared_with(line, "func "@, "( "@) {
        assert(symbol_rules()[30] == ("func "@, SymbolKind::Function, "( "@));
        lemma_prefix_conflict(t, "func "@, "pub(crate) fn "@, 0);
        lemma_prefix_conflict(t, "func "@, "pub fn "@, 0);
        lemma_prefix_conflict(t, "func "@, "async fn "@, 0);
        lemma_prefix_conflict(t, "func "@, "pub async fn "@, 0);
        lemma_prefix_conflict(t, "func "@, "fn "@, 1);
        lemma_prefix_conflict(t, "func "@, "pub(crate) struct "@, 0);
        lemma_prefix_conflict(t, "func "@, "pub struct "@, 0);
        lemma_prefix_conflict(t, "func "@, "struct "@, 0);
        lemma_prefix_conflict(t, "func "@, "pub(crate) enum "@, 0);
        lemma_prefix_conflict(t, "func "@, "pub enum "@, 0);
        lemma_prefix_conflict(t, "func "@, "enum "@, 0);
        lemma_prefix_conflict(t, "func "@, "pub(crate) trait "@, 0);
        lemma_prefix_conflict(t, "func "@, "pub trait "@, 0);
        lemma_prefix_conflict(t, "func "@, "trait "@, 0);
        lemma_prefix_conflict(t, "func "@, "pub(crate) type "@, 0);
        lemma_prefix_conflict(t, "func "@, "pub type "@, 0);
        lemma_prefix_conflict(t, "func "@, "type "@, 0);
        lemma_prefix_conflict(t, "func "@, "impl "@, 0);
        lemma_prefix_conflict(t, "func "@, "pub(crate) mod "@, 0);
        lemma_prefix_conflict(t, "func "@, "pub mod "@, 0);
        lemma_prefix_conflict(t, "func "@, "mod "@, 0);
        lemma_prefix_conflict(t, "func "@, "pub const "@, 0);
        lemma_prefix_conflict(t, "func "@, "pub(crate) const "@, 0);
        lemma_prefix_conflict(t, "func "@, "const "@, 0);
        lemma_prefix_conflict(t, "func "@, "def "@, 0);
        lemma_prefix_conflict(t, "func "@, "class "@, 0);
        lemma_prefix_conflict(t, "func "@, "export function "@, 0);
        lemma_prefix_conflict(t, "func "@, "export async function "@, 0);
        lemma_prefix_conflict(t, "func "@, "function "@, 4);
        lemma_prefix_conflict(t, "func "@, "async function "@, 0);
        lemma_classify_reaches(t, 30, 0);
    }
    if declared_with(line, "type "@, " "@) && !declared_with(line, "type "@, "(< ={"@) {
        assert(symbol_rules()[31] == ("type "@, SymbolKind::Type, " "@));
        lemma_prefix_conflict(t, "type "@, "pub(crate) fn "@, 0);
        lemma_prefix_conflict(t, "type "@, "pub fn "@, 0);
        lemma_prefix_conflict(t, "type "@, "async fn "@, 0);
        lemma_prefix_conflict(t, "type "@, "pub async fn "@, 0);
        lemma_prefix_conflict(t, "type "@, "fn "@, 0);
        lemma_prefix_conflict(t, "type "@, "pub(crate) struct "@, 0);
        lemma_prefix_conflict(t, "type "@, "pub struct "@, 0);
        lemma_prefix_conflict(t, "type "@, "struct "@, 0);
        lemma_prefix_conflict(t, "type "@, "pub(crate) enum "@, 0);
        lemma_prefix_conflict(t, "type "@, "pub enum "@, 0);
        lemma_prefix_conflict(t, "type "@, "enum "@, 0);
        lemma_prefix_conflict(t, "type "@, "pub(crate) trait "@, 0);
        lemma_prefix_conflict(t, "type "@, "pub trait "@, 0);
        lemma_prefix_conflict(t, "type "@, "trait "@, 1);
        lemma_prefix_conflict(t, "type "@, "pub(crate) type "@, 0);
        lemma_prefix_conflict(t, "type "@, "pub type "@, 0);
        assert(symbol_rules()[16] == ("type "@, SymbolKind::Type, "(< ={"@));
        lemma_prefix_conflict(t, "type "@, "impl "@, 0);
        lemma_prefix_conflict(t, "type "@, "pub(crate) mod "@, 0);
        lemma_prefix_conflict(t, "type "@, "pub mod "@, 0);
        lemma_prefix_conflict(t, "type "@, "mod "@, 0);
        lemma_prefix_conflict(t, "type "@, "pub const "@, 0);
        lemma_prefix_conflict(t, "type "@, "pub(crate) const "@, 0);
        lemma_prefix_conflict(t, "type "@, "const "@, 0);
        lemma_prefix_conflict(t, "type "@, "def "@, 0);
        lemma_prefix_conflict(t, "type "@, "class "@, 0);
        lemma_prefix_conflict(t, "type "@, "export function "@, 0);
        lemma_prefix_conflict(t, "type "@, "export async function "@, 0);
        lemma_prefix_conflict(t, "type "@, "function "@, 0);
        lemma_prefix_conflict(t, "type "@, "async function "@, 0);
        lemma_prefix_conflict(t, "type "@, "func "@, 0);
        lemma_classify_reaches(t, 31, 0);
    }
}

/// Whether none of the declaration forms reads a name from the line: for
/// each form, the trimmed line does not begin with its keywords, or the
/// text after them gives an empty name.
pub open spec fn no_declaration_form(line: Seq<char>) -> bool {
    &&& !declared_with(line, "pub(crate) fn "@, "(< {"@)
    &&& !declared_with(line, "pub fn "@, "(< {"@)
    &&& !declared_with(line, "async fn "@, "(< {"@)
    &&& !declared_with(line, "pub async fn "@, "(< {"@)
    &&& !declared_with(line, "fn "@, "(< {"@)
    &&& !declared_with(line, "pub(crate) struct "@, "(< {"@)
    &&& !declared_with(line, "pub struct "@, "(< {"@)
    &&& !declared_with(line, "struct "@, "(< {"@)
    &&& !declared_with(line, "pub(crate) enum "@, "(< {"@)
    &&& !declared_with(line, "pub enum "@, "(< {"@)
    &&& !declared_with(line, "enum "@, "(< {"@)
    &&& !declared_with(line, "pub(crate) trait "@, "(< {"@)
    &&& !declared_with(line, "pub trait "@, "(< {"@)
    &&& !declared_with(line, "trait "@, "(< {"@)
    &&& !declared_with(line, "pub(crate) type "@, "(< ={"@)
    &&& !declared_with(line, "pub type "@, "(< ={"@)
    &&& !declared_with(line, "type "@, "(< ={"@)
    &&& !declared_with(line, "impl "@, "{<"@)
    &&& !declared_with(line, "pub(crate) mod "@, " {;"@)
    &&& !declared_with(line, "pub mod "@, " {;"@)
    &&& !declared_with(line, "mod "@, " {;"@)
    &&& !declared_with(line, "pub const "@, ": "@)
    &&& !declared_with(line, "pub(crate) const "@, ": "@)
    &&& !declared_with(line, "const "@, ": "@)
    &&& !declared_with(line, "def "@, "( "@)
    &&& !declared_with(line, "class "@, "(: {"@)
    &&& !declared_with(line, "export function "@, "( "@)
    &&& !declared_with(line, "export async function "@, "( "@)
    &&& !declared_with(line, "function "@, "( "@)
    &&& !declared_with(line, "async function "@, "( "@)
    &&& !declared_with(line, "func "@, "( "@)
    &&& !declared_with(line, "type "@, " "@)
}

/// A line from which no declaration form reads a name declares nothing.
pub proof fn law_lines_without_a_declaration_form_declare_nothing(line: Seq<char>)
    ensures
        no_declaration_form(line) ==> spec_classify_line(line) is None,
{
    let t = trimmed(line);
    if no_declaration_form(line) {
        assert(symbol_rules()[0] == ("pub(crate) fn "@, SymbolKind::Function, "(< {"@));
        assert(symbol_rules()[1] == ("pub fn "@, SymbolKind::Function, "(< {"@));
        assert(symbol_rules()[2] == ("async fn "@, SymbolKind::Function, "(< {"@));
        assert(symbol_rules()[3] == ("pub async fn "@, SymbolKind::Function, "(< {"@));
        assert(symbol_rules()[4] == ("fn "@, SymbolKind::Function, "(< {"@));
        assert(symbol_rules()[5] == ("pub(crate) struct "@, SymbolKind::Struct, "(< {"@));
        assert(symbol_rules()[6] == ("pub struct "@, SymbolKind::Struct, "(< {"@));
        assert(symbol_rules()[7] == ("struct "@, SymbolKind::Struct, "(< {"@));
        assert(symbol_rules()[8] == ("pub(crate) enum "@, SymbolKind::Enum, "(< {"@));
        assert(symbol_rules()[9] == ("pub enum "@, SymbolKind::Enum, "(< {"@));
        assert(symbol_rules()[10] == ("enum "@, SymbolKind::Enum, "(< {"@));
        assert(symbol_rules()[11] == ("pub(crate) trait "@, SymbolKind::Trait, "(< {"@));
        assert(symbol_rules()[12] == ("pub trait "@, SymbolKind::Trait, "(< {"@));
        assert(symbol_rules()[13] == ("trait "@, SymbolKind::Trait, "(< {"@));
        assert(symbol_rules()[14] == ("pub(crate) type "@, SymbolKind::Type, "(< ={"@));
        assert(symbol_rules()[15] == ("pub type "@, SymbolKind::Type, "(< ={"@));
        assert(symbol_rules()[16] == ("type "@, SymbolKind::Type, "(< ={"@));
        assert(symbol_rules()[17] == ("impl "@, SymbolKind::Impl, "{<"@));
        assert(symbol_rules()[18] == ("pub(crate) mod "@, SymbolKind::Module, " {;"@));
        assert(symbol_rules()[19] == ("pub mod "@, SymbolKind::Module, " {;"@));
        assert(symbol_rules()[20] == ("mod "@, SymbolKind::Module, " {;"@));
        assert(symbol_rules()[21] == ("pub const "@, SymbolKind::Constant, ": "@));
        assert(symbol_rules()[22] == ("pub(crate) const "@, SymbolKind::Constant, ": "@));
        assert(symbol_rules()[23] == ("const "@, SymbolKind::Constant, ": "@));
        assert(symbol_rules()[24] == ("def "@, SymbolKind::Function, "( "@));
        assert(symbol_rules()[25] == ("class "@, SymbolKind::Class, "(: {"@));
        assert(symbol_rules()[26] == ("export function "@, SymbolKind::Function, "( "@));
        assert(symbol_rules()[27] == ("export async function "@, SymbolKind::Function, "( "@));
        assert(symbol_rules()[28] == ("function "@, SymbolKind::Function, "( "@));
        assert(symbol_rules()[29] == ("async function "@, SymbolKind::Function, "( "@));
        assert(symbol_rules()[30] == ("func "@, SymbolKind::Function, "( "@));
        assert(symbol_rules()[31] == ("type "@, SymbolKind::Type, " "@));
        assert(classify_from(t, 32) is None);
        assert(classify_from(t, 31) == classify_from(t, 32));
        assert(classify_from(t, 30) == classify_from(t, 31));
        assert(classify_from(t, 29) == classify_from(t, 30));
        assert(classify_from(t, 28) == classify_from(t, 29));
        assert(classify_from(t, 27) == classify_from(t, 28));
        assert(classify_from(t, 26) == classify_from(t, 27));
        assert(classify_from(t, 25) == classify_from(t, 26));
        assert(classify_from(t, 24) == classify_from(t, 25));
        assert(classify_from(t, 23) == classify_from(t, 24));
        assert(classify_from(t, 22) == classify_from(t, 23));
        assert(classify_from(t, 21) == classify_from(t, 22));
        assert(classify_from(t, 20) == classify_from(t, 21));
        assert(classify_from(t, 19) == classify_from(t, 20));
        assert(classify_from(t, 18) == classify_from(t, 19));
        assert(classify_from(t, 17) == classify_from(t, 18));
        assert(classify_from(t, 16) == classify_from(t, 17));
        assert(classify_from(t, 15) == classify_from(t, 16));
        assert(classify_from(t, 14) == classify_from(t, 15));
        assert(classify_from(t, 13) == classify_from(t, 14));
        assert(classify_from(t, 12) == classify_from(t, 13));
        assert(classify_from(t, 11) == classify_from(t, 12));
        assert(classify_from(t, 10) == classify_from(t, 11));
        assert(classify_from(t, 9) == classify_from(t, 10));
        assert(classify_from(t, 8) == classify_from(t, 9));
        assert(classify_from(t, 7) == classify_from(t, 8));
        assert(classify_from(t, 6) == classify_from(t, 7));
        assert(classify_from(t, 5) == classify_from(t, 6));
        assert(classify_from(t, 4) == classify_from(t, 5));
        assert(classify_from(t, 3) == classify_from(t, 4));
        assert(classify_from(t, 2) == classify_from(t, 3));
        assert(classify_from(t, 1) == classify_from(t, 2));
        assert(classify_from(t, 0) == classify_from(t, 1));
    }
}

} // verus!
