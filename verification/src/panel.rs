//! Decisions of the host-side extension panel: what it persists, which tab
//! an open request focuses, how a saved layout is restored, when a new tree
//! needs a repaint, and how queries from extensions are answered.
use vstd::prelude::*;
use crate::elements::{same_tree, tree_eq, F32Bits, UiNode, UiTree};
use crate::json::{command_with_args_json, json_command_with_args, json_string, json_string_list, json_string_list_text, json_string_text, string_views};
use crate::text::{concat_str, decimal, str_eq, usize_to_string};

verus! {

/// Opens a specific extension in the panel, by extension and command id.
pub struct OpenExtensionPanel {
    /// The extension to open.
    pub extension_id: String,
    /// The command that triggered the open.
    pub command_id: String,
}

/// Events emitted by extension views to request workspace actions.
pub enum ExtensionViewEvent {
    /// Request to open the file at the given path.
    OpenFile(String),
}

/// The view event for an `ext.open-file` message carrying `data`.
pub fn open_file_event(data: String) -> (r: ExtensionViewEvent)
    ensures
        r == ExtensionViewEvent::OpenFile(data),
{
    ExtensionViewEvent::OpenFile(data)
}

/// Key under which the panel layout is persisted.
pub fn extension_panel_key() -> (r: &'static str)
    ensures
        r@ == "ExtensionGuiPanel"@,
{
    "ExtensionGuiPanel"
}

/// The persisted layout of the panel.
pub struct SerializedExtensionPanel {
    /// Extension ids of the open tabs, in tab order.
    pub open_extensions: Vec<String>,
    /// Position of the active extension among them, if any.
    pub active_index: Option<usize>,
}

/// The extension ids of the tabs that hold extension views, in order.
pub open spec fn extension_tab_ids(tabs: Seq<Option<String>>) -> Seq<Seq<char>>
    decreases tabs.len(),
{
    if tabs.len() == 0 {
        Seq::empty()
    } else {
        let earlier = extension_tab_ids(tabs.drop_last());
        match tabs.last() {
            Some(id) => earlier.push(id@),
            None => earlier,
        }
    }
}

/// Position of the first element of `s` at or after `i` equal to `t`.
pub open spec fn position_from(s: Seq<Seq<char>>, t: Seq<char>, i: int) -> Option<int>
    decreases s.len() - i,
{
    if i < 0 || i >= s.len() {
        None
    } else if s[i] == t {
        Some(i)
    } else {
        position_from(s, t, i + 1)
    }
}

pub proof fn lemma_position_from_bounds(s: Seq<Seq<char>>, t: Seq<char>, i: int)
    ensures
        position_from(s, t, i) matches Some(p) ==> i <= p < s.len() && s[p] == t,
    decreases s.len() - i,
{
    if 0 <= i < s.len() && s[i] != t {
        lemma_position_from_bounds(s, t, i + 1);
    }
}

fn first_position(s: &Vec<String>, t: &str) -> (r: Option<usize>)
    ensures
        r matches Some(p) ==> position_from(string_views(s@), t@, 0) == Some(p as int),
        r is None ==> position_from(string_views(s@), t@, 0) is None,
{
    let ghost views = string_views(s@);
    let mut i: usize = 0;
    while i < s.len()
        invariant
            i <= s@.len(),
            views == string_views(s@),
            position_from(views, t@, 0) == position_from(views, t@, i as int),
        decreases s@.len() - i,
    {
        if str_eq(s[i].as_str(), t) {
            return Some(i);
        }
        i += 1;
    }
    None
}

/// The layout to persist for tabs `tabs` (`None` for a tab that is not an
/// extension view) when the active tab shows extension `active_id`.
pub fn panel_state(tabs: &Vec<Option<String>>, active_id: Option<&str>) -> (r: SerializedExtensionPanel)
    ensures
        string_views(r.open_extensions@) == extension_tab_ids(tabs@),
        active_id is None ==> r.active_index is None,
        active_id matches Some(a) ==> match position_from(extension_tab_ids(tabs@), a@, 0) {
            Some(p) => r.active_index == Some(p as usize),
            None => r.active_index is None,
        },
{
    let mut open_extensions: Vec<String> = Vec::new();
    let mut i: usize = 0;
    while i < tabs.len()
        invariant
            i <= tabs@.len(),
            string_views(open_extensions@) == extension_tab_ids(tabs@.take(i as int)),
        decreases tabs@.len() - i,
    {
        proof {
            assert(tabs@.take(i + 1).drop_last() =~= tabs@.take(i as int));
        }
        match &tabs[i] {
            Some(id) => {
                open_extensions.push(id.clone());
                assert(string_views(open_extensions@) =~= extension_tab_ids(tabs@.take(i + 1)));
            },
            None => {},
        }
        i += 1;
    }
    assert(tabs@.take(i as int) =~= tabs@);
    let active_index = match active_id {
        Some(a) => first_position(&open_extensions, a),
        None => None,
    };
    SerializedExtensionPanel { open_extensions, active_index }
}

/// Index of the first tab that shows extension `id`.
pub open spec fn first_tab_of(tabs: Seq<Option<String>>, id: Seq<char>, i: int) -> Option<int>
    decreases tabs.len() - i,
{
    if i < 0 || i >= tabs.len() {
        None
    } else if tabs[i] matches Some(t) && t@ == id {
        Some(i)
    } else {
        first_tab_of(tabs, id, i + 1)
    }
}

/// What an open request does.
pub enum PanelOpen {
    /// The extension already has a tab: focus the tab at this index.
    Focus(usize),
    /// Open the extension in a new tab.
    AddTab,
}

/// Opens the extension in a new tab, or focuses the existing tab if it is
/// already open.
pub fn open_or_focus(tabs: &Vec<Option<String>>, extension_id: &str) -> (r: PanelOpen)
    ensures
        match first_tab_of(tabs@, extension_id@, 0) {
            Some(ix) => r == PanelOpen::Focus(ix as usize),
            None => r == PanelOpen::AddTab,
        },
{
    let mut i: usize = 0;
    while i < tabs.len()
        invariant
            i <= tabs@.len(),
            first_tab_of(tabs@, extension_id@, 0) == first_tab_of(tabs@, extension_id@, i as int),
        decreases tabs@.len() - i,
    {
        match &tabs[i] {
            Some(id) => {
                if str_eq(id.as_str(), extension_id) {
                    return PanelOpen::Focus(i);
                }
            },
            None => {},
        }
        i += 1;
    }
    PanelOpen::AddTab
}

/// Whether a freshly loaded extension was open when the layout was saved and
/// should get its tab back.
pub fn should_restore(pending: &Option<SerializedExtensionPanel>, extension_id: &str) -> (r: bool)
    ensures
        r == (pending matches Some(p) && string_views(p.open_extensions@).contains(extension_id@)),
{
    match pending {
        None => false,
        Some(p) => {
            let pos = first_position(&p.open_extensions, extension_id);
            proof {
                lemma_position_from_bounds(string_views(p.open_extensions@), extension_id@, 0);
                if string_views(p.open_extensions@).contains(extension_id@) {
                    let k = choose|k: int| 0 <= k < p.open_extensions@.len() && string_views(p.open_extensions@)[k] == extension_id@;
                    lemma_position_from_found(string_views(p.open_extensions@), extension_id@, 0, k);
                }
            }
            pos.is_some()
        },
    }
}

pub proof fn lemma_position_from_found(s: Seq<Seq<char>>, t: Seq<char>, i: int, k: int)
    requires
        0 <= i <= k < s.len(),
        s[k] == t,
    ensures
        position_from(s, t, i) is Some,
    decreases k - i,
{
    if s[i] != t {
        lemma_position_from_found(s, t, i + 1, k);
    }
}

/// How far restoring a saved layout has come.
pub enum RestoreProgress {
    /// Some saved tabs are still waiting for their extension to load.
    Waiting,
    /// Every saved tab is back: activate the saved active tab, if any, and
    /// forget the saved layout.
    Complete(Option<usize>),
}

/// The progress of a restore once the panel holds `open_count` tabs.
pub fn restore_progress(pending: &SerializedExtensionPanel, open_count: usize) -> (r: RestoreProgress)
    ensures
        open_count == pending.open_extensions@.len() ==> r == RestoreProgress::Complete(pending.active_index),
        open_count != pending.open_extensions@.len() ==> r == RestoreProgress::Waiting,
{
    if open_count == pending.open_extensions.len() {
        RestoreProgress::Complete(pending.active_index)
    } else {
        RestoreProgress::Waiting
    }
}

/// What an `OpenExtensionPanel` action does.
pub enum OpenPanelAction {
    /// There is no panel in this workspace: nothing happens.
    Ignore,
    /// Open or focus the extension's tab, then run its command.
    OpenAndRun,
    /// The extension is not loaded: toggle the panel's focus.
    ToggleFocus,
}

pub fn open_panel_action(panel_exists: bool, extension_loaded: bool) -> (r: OpenPanelAction)
    ensures
        !panel_exists ==> r == OpenPanelAction::Ignore,
        panel_exists && extension_loaded ==> r == OpenPanelAction::OpenAndRun,
        panel_exists && !extension_loaded ==> r == OpenPanelAction::ToggleFocus,
{
    if !panel_exists {
        OpenPanelAction::Ignore
    } else if extension_loaded {
        OpenPanelAction::OpenAndRun
    } else {
        OpenPanelAction::ToggleFocus
    }
}

/// Whether a re-rendered tree must be repainted: always when there was no
/// tree, otherwise whenever the new tree differs from the old one in any
/// node, style or text, even where its shape stayed the same.
pub fn tree_changed(old: &Option<UiTree>, new: &UiTree) -> (r: bool)
    ensures
        r == match old {
            None => true,
            Some(o) => !same_tree(*o, *new),
        },
{
    match old {
        Some(o) => !tree_eq(o, new),
        None => true,
    }
}

/// Where the panel can be docked.
#[derive(Clone, Copy, PartialEq, Eq, Structural, Debug)]
pub enum DockPosition {
    Left,
    Bottom,
    Right,
}

/// The panel can only be docked on the left or the right.
pub fn position_is_valid(position: DockPosition) -> (r: bool)
    ensures
        r == (position == DockPosition::Left || position == DockPosition::Right),
{
    match position {
        DockPosition::Left | DockPosition::Right => true,
        DockPosition::Bottom => false,
    }
}

/// Bit pattern of `360.0f32`, the default panel width in pixels.
pub const DEFAULT_PANEL_WIDTH: F32Bits = 0x43B4_0000;

/// The panel width: the one set by the user, or 360 pixels.
pub fn panel_size(width: Option<F32Bits>) -> (r: F32Bits)
    ensures
        r == match width {
            Some(w) => w,
            None => DEFAULT_PANEL_WIDTH,
        },
{
    match width {
        Some(w) => w,
        None => DEFAULT_PANEL_WIDTH,
    }
}

/// The badge on the panel's dock button: the number of open tabs, or none.
pub fn icon_label(count: usize) -> (r: Option<String>)
    ensures
        count == 0 ==> r is None,
        count != 0 ==> (r matches Some(s) && s@ == decimal(count as nat)),
{
    if count == 0 {
        None
    } else {
        Some(usize_to_string(count))
    }
}

/// Priority of the panel among the dock's panels.
pub fn activation_priority() -> (r: u32)
    ensures
        r == 7,
{
    7
}

/// A query that the host answers itself, besides the extensions' handlers.
#[derive(Clone, Copy, PartialEq, Eq, Structural, Debug)]
pub enum HostQuery {
    /// `zed.project-root`: the first worktree's path.
    ProjectRoot,
    /// `zed.active-file`: the active item's path.
    ActiveFile,
}

/// The host query a topic names, if any.
pub fn host_query(topic: &str) -> (r: Option<HostQuery>)
    ensures
        topic@ == "zed.project-root"@ ==> r == Some(HostQuery::ProjectRoot),
        topic@ == "zed.active-file"@ ==> r == Some(HostQuery::ActiveFile),
        topic@ != "zed.project-root"@ && topic@ != "zed.active-file"@ ==> r is None,
{
    proof {
        reveal_strlit("zed.project-root");
        reveal_strlit("zed.active-file");
        assert("zed.project-root"@[4] != "zed.active-file"@[4]);
    }
    if str_eq(topic, "zed.project-root") {
        Some(HostQuery::ProjectRoot)
    } else if str_eq(topic, "zed.active-file") {
        Some(HostQuery::ActiveFile)
    } else {
        None
    }
}

/// One answer to a query.
pub struct QueryResponse {
    /// Who answered: `zed` or an extension id.
    pub source: String,
    pub data: String,
}

/// The host's own answer: the path as a JSON string, from `zed`.
pub fn host_query_response(path: &str) -> (r: QueryResponse)
    ensures
        r.source@ == "zed"@,
        r.data@ == json_string_text(path@),
{
    QueryResponse { source: "zed".to_owned(), data: json_string(path) }
}

/// A handler's answer: present only when the handler replied in time and
/// with a success.
pub fn handler_response(extension_id: &str, reply: Option<Result<String, String>>) -> (r: Option<QueryResponse>)
    ensures
        reply matches Some(Ok(d)) ==> (r matches Some(q) && q.source@ == extension_id@ && q.data == d),
        !(reply matches Some(Ok(_))) ==> r is None,
{
    match reply {
        Some(Ok(d)) => Some(QueryResponse { source: extension_id.to_owned(), data: d }),
        _ => None,
    }
}

/// A query as it is handed to one of the topic's handlers; the channel for
/// the handler's answer travels beside it.
pub struct QueryDelivery {
    /// The handler's position among the topic's handlers.
    pub query_id: u64,
    pub topic: String,
    /// The extension that asked.
    pub source: String,
    pub data: String,
}

/// The deliveries of one query to the topic's `handler_count` handlers, in
/// handler order: the `i`-th carries query id `i` and the query's topic,
/// asker and data.
pub fn query_deliveries(topic: &str, source: &str, data: &str, handler_count: usize) -> (r: Vec<QueryDelivery>)
    ensures
        r@.len() == handler_count,
        forall|i: int| 0 <= i < handler_count ==> {
            &&& (#[trigger] r@[i]).query_id == i
            &&& r@[i].topic@ == topic@
            &&& r@[i].source@ == source@
            &&& r@[i].data@ == data@
        },
{
    let mut r: Vec<QueryDelivery> = Vec::new();
    let mut i: usize = 0;
    while i < handler_count
        invariant
            i <= handler_count,
            r@.len() == i,
            forall|k: int| 0 <= k < i ==> {
                &&& (#[trigger] r@[k]).query_id == k
                &&& r@[k].topic@ == topic@
                &&& r@[k].source@ == source@
                &&& r@[k].data@ == data@
            },
        decreases handler_count - i,
    {
        r.push(QueryDelivery {
            query_id: i as u64,
            topic: topic.to_owned(),
            source: source.to_owned(),
            data: data.to_owned(),
        });
        i += 1;
    }
    r
}

/// The answers that reached the handlers' callers, in order.
pub open spec fn present_responses(replies: Seq<Option<QueryResponse>>) -> Seq<QueryResponse>
    decreases replies.len(),
{
    if replies.len() == 0 {
        Seq::empty()
    } else {
        let earlier = present_responses(replies.drop_last());
        match replies.last() {
            Some(q) => earlier.push(q),
            None => earlier,
        }
    }
}

/// The answers a query returns: the host's own answer first, if any, then the
/// handlers' answers in handler order; none of the handlers' answers when the
/// query timed out.
pub fn collect_query_responses(
    host: Option<QueryResponse>,
    replies: Vec<Option<QueryResponse>>,
    timed_out: bool,
) -> (r: Vec<QueryResponse>)
    ensures
        r@ == match host {
            Some(h) => seq![h],
            None => Seq::empty(),
        } + if timed_out {
            Seq::empty()
        } else {
            present_responses(replies@)
        },
{
    let mut collected: Vec<QueryResponse> = Vec::new();
    match host {
        Some(h) => collected.push(h),
        None => {},
    }
    let ghost head = collected@;
    if !timed_out {
        let ghost orig = replies@;
        let mut rest = replies;
        let mut k: usize = 0;
        let n = rest.len();
        proof {
            assert(orig.take(0) =~= Seq::<Option<QueryResponse>>::empty());
            assert(collected@ =~= head + present_responses(orig.take(0)));
        }
        while rest.len() > 0
            invariant
                n == orig.len(),
                k <= orig.len(),
                rest@ == orig.skip(k as int),
                collected@ == head + present_responses(orig.take(k as int)),
            decreases rest@.len(),
        {
            let reply = rest.remove(0);
            proof {
                assert(orig.take(k + 1).drop_last() =~= orig.take(k as int));
                assert(reply == orig[k as int]);
                assert(orig.skip(k + 1) =~= orig.skip(k as int).drop_first());
            }
            match reply {
                Some(q) => {
                    collected.push(q);
                    assert(collected@ =~= head + present_responses(orig.take(k + 1)));
                },
                None => {},
            }
            k = k + 1;
        }
        assert(orig.take(k as int) =~= orig);
    } else {
        assert(collected@ =~= head + Seq::<QueryResponse>::empty());
    }
    collected
}

/// A message on a pub-sub topic.
pub struct PubSubEvent {
    pub topic: String,
    pub source: String,
    pub data: String,
}

/// The workspace context delivered to a freshly initialised extension, in
/// order: the project root, the active file and the open files (as a JSON
/// list), each from `zed`.
pub fn initial_context_events(project_root: String, active_file: String, open_files: &Vec<String>) -> (r: Vec<PubSubEvent>)
    ensures
        r@.len() == 3,
        r@[0].topic@ == "zed.project-root-changed"@ && r@[0].source@ == "zed"@ && r@[0].data == project_root,
        r@[1].topic@ == "zed.active-file-changed"@ && r@[1].source@ == "zed"@ && r@[1].data == active_file,
        r@[2].topic@ == "zed.open-files-changed"@ && r@[2].source@ == "zed"@
            && r@[2].data@ == json_string_list_text(string_views(open_files@)),
{
    let mut events: Vec<PubSubEvent> = Vec::new();
    events.push(PubSubEvent { topic: "zed.project-root-changed".to_owned(), source: "zed".to_owned(), data: project_root });
    events.push(PubSubEvent { topic: "zed.active-file-changed".to_owned(), source: "zed".to_owned(), data: active_file });
    events.push(PubSubEvent { topic: "zed.open-files-changed".to_owned(), source: "zed".to_owned(), data: json_string_list(open_files) });
    events
}

/// Reply of the host to a slash command: the command and its arguments as a
/// JSON object, for the extension to handle.
pub fn slash_command_reply(command: &str, args: &Vec<String>) -> (r: Result<String, String>)
    ensures
        r matches Ok(s) && s@ == json_command_with_args(command@, string_views(args@)),
{
    Ok(command_with_args_json(command, args))
}

/// Reply of the host to a command: `null` when the action ran, and an error
/// naming the command otherwise.
pub fn command_reply(command: &str, build_error: Option<&str>) -> (r: Result<String, String>)
    ensures
        build_error is None ==> (r matches Ok(s) && s@ == "null"@),
        build_error matches Some(e) ==> (r matches Err(m) && m@ == "Unknown action '"@ + command@ + "': "@ + e@),
{
    match build_error {
        None => Ok("null".to_owned()),
        Some(e) => {
            let m = concat_str("Unknown action '", command);
            let m = concat_str(m.as_str(), "': ");
            let m = concat_str(m.as_str(), e);
            Err(m)
        },
    }
}

/// The ids of the input nodes of a tree, in node order.
pub open spec fn input_ids(nodes: Seq<UiNode>) -> Seq<Seq<char>>
    decreases nodes.len(),
{
    if nodes.len() == 0 {
        Seq::empty()
    } else {
        let earlier = input_ids(nodes.drop_last());
        match nodes.last() {
            UiNode::Input(n) => earlier.push(n.id@),
            _ => earlier,
        }
    }
}

/// The ids of the input nodes of `tree`, in node order; the host keeps one
/// text field per id.
pub fn tree_input_ids(tree: &UiTree) -> (r: Vec<String>)
    ensures
        string_views(r@) == input_ids(tree.nodes@),
{
    let mut ids: Vec<String> = Vec::new();
    let mut i: usize = 0;
    while i < tree.nodes.len()
        invariant
            i <= tree.nodes@.len(),
            string_views(ids@) == input_ids(tree.nodes@.take(i as int)),
        decreases tree.nodes@.len() - i,
    {
        proof {
            assert(tree.nodes@.take(i + 1).drop_last() =~= tree.nodes@.take(i as int));
        }
        match &tree.nodes[i] {
            UiNode::Input(n) => {
                ids.push(n.id.clone());
                assert(string_views(ids@) =~= input_ids(tree.nodes@.take(i + 1)));
            },
            _ => {},
        }
        i += 1;
    }
    assert(tree.nodes@.take(i as int) =~= tree.nodes@);
    ids
}

/// The focus handle ids of the containers of a tree, in node order.
pub open spec fn focus_handle_ids(nodes: Seq<UiNode>) -> Seq<u32>
    decreases nodes.len(),
{
    if nodes.len() == 0 {
        Seq::empty()
    } else {
        let earlier = focus_handle_ids(nodes.drop_last());
        match nodes.last() {
            UiNode::Div(n) => match n.focus_handle_id {
                Some(h) => earlier.push(h),
                None => earlier,
            },
            _ => earlier,
        }
    }
}

/// The focus handle ids that `tree` uses; the host keeps a focus handle for
/// each.
pub fn tree_focus_handle_ids(tree: &UiTree) -> (r: Vec<u32>)
    ensures
        r@ == focus_handle_ids(tree.nodes@),
{
    let mut ids: Vec<u32> = Vec::new();
    let mut i: usize = 0;
    while i < tree.nodes.len()
        invariant
            i <= tree.nodes@.len(),
            ids@ == focus_handle_ids(tree.nodes@.take(i as int)),
        decreases tree.nodes@.len() - i,
    {
        proof {
            assert(tree.nodes@.take(i + 1).drop_last() =~= tree.nodes@.take(i as int));
        }
        match &tree.nodes[i] {
            UiNode::Div(n) => match n.focus_handle_id {
                Some(h) => ids.push(h),
                None => {},
            },
            _ => {},
        }
        i += 1;
    }
    assert(tree.nodes@.take(i as int) =~= tree.nodes@);
    ids
}

/// The ids of `existing` that are still among `current`, in order: the
/// text fields the host keeps.
pub open spec fn kept_ids(existing: Seq<Seq<char>>, current: Seq<Seq<char>>) -> Seq<Seq<char>> {
    existing.filter(|id: Seq<char>| current.contains(id))
}

/// The text fields to create for the first `n` nodes: for each input whose
/// id has no field yet (kept or just created), its id and its placeholder
/// (empty when it has none).
pub open spec fn fields_created(nodes: Seq<UiNode>, kept: Seq<Seq<char>>, n: int) -> Seq<(Seq<char>, Seq<char>)>
    decreases n,
{
    if n <= 0 || n > nodes.len() {
        Seq::empty()
    } else {
        let prev = fields_created(nodes, kept, n - 1);
        match nodes[n - 1] {
            UiNode::Input(i) => if kept.contains(i.id@) || prev.map_values(|p: (Seq<char>, Seq<char>)| p.0).contains(i.id@) {
                prev
            } else {
                prev.push((i.id@, match i.placeholder { Some(p) => p@, None => Seq::empty() }))
            },
            _ => prev,
        }
    }
}

/// Whether `id` is one of `ids`.
fn has_id(ids: &Vec<String>, id: &str) -> (r: bool)
    ensures
        r == string_views(ids@).contains(id@),
{
    let mut k: usize = 0;
    while k < ids.len()
        invariant
            k <= ids@.len(),
            forall|j: int| 0 <= j < k ==> string_views(ids@)[j] != id@,
        decreases ids@.len() - k,
    {
        if str_eq(ids[k].as_str(), id) {
            assert(string_views(ids@)[k as int] == id@);
            return true;
        }
        k += 1;
    }
    false
}

/// How the host updates its text fields for a new tree: the fields whose
/// input is still in the tree are kept, the others dropped; a field is
/// created for each input that has none, in node order. Existing fields
/// are not updated.
pub fn text_field_plan(existing: &Vec<String>, tree: &UiTree) -> (r: (Vec<String>, Vec<(String, String)>))
    ensures
        string_views(r.0@) == kept_ids(string_views(existing@), input_ids(tree.nodes@)),
        r.1@.map_values(|p: (String, String)| (p.0@, p.1@)) == fields_created(tree.nodes@, kept_ids(string_views(existing@), input_ids(tree.nodes@)), tree.nodes@.len() as int),
{
    let current = tree_input_ids(tree);
    let ghost cur = input_ids(tree.nodes@);
    let ghost ex = string_views(existing@);
    let mut kept: Vec<String> = Vec::new();
    let mut i: usize = 0;
    while i < existing.len()
        invariant
            i <= existing@.len(),
            string_views(current@) == cur,
            ex == string_views(existing@),
            string_views(kept@) == ex.take(i as int).filter(|id: Seq<char>| cur.contains(id)),
        decreases existing@.len() - i,
    {
        proof {
            assert(ex.take(i + 1).drop_last() =~= ex.take(i as int));
            reveal(Seq::filter);
        }
        if has_id(&current, existing[i].as_str()) {
            kept.push(existing[i].clone());
        }
        assert(string_views(kept@) =~= ex.take(i + 1).filter(|id: Seq<char>| cur.contains(id)));
        i += 1;
    }
    assert(ex.take(i as int) =~= ex);
    let ghost kv = string_views(kept@);
    let mut created: Vec<(String, String)> = Vec::new();
    let mut created_ids: Vec<String> = Vec::new();
    let mut n: usize = 0;
    while n < tree.nodes.len()
        invariant
            n <= tree.nodes@.len(),
            kv == string_views(kept@),
            created@.map_values(|p: (String, String)| (p.0@, p.1@)) == fields_created(tree.nodes@, kv, n as int),
            string_views(created_ids@) == fields_created(tree.nodes@, kv, n as int).map_values(|p: (Seq<char>, Seq<char>)| p.0),
        decreases tree.nodes@.len() - n,
    {
        let ghost prev = fields_created(tree.nodes@, kv, n as int);
        match &tree.nodes[n] {
            UiNode::Input(inp) => {
                if !has_id(&kept, inp.id.as_str()) && !has_id(&created_ids, inp.id.as_str()) {
                    let placeholder = match &inp.placeholder {
                        Some(p) => p.clone(),
                        None => String::new(),
                    };
                    let ghost ids_before = string_views(created_ids@);
                    created.push((inp.id.clone(), placeholder));
                    created_ids.push(inp.id.clone());
                    proof {
                        let f = |p: (Seq<char>, Seq<char>)| p.0;
                        let next = fields_created(tree.nodes@, kv, n + 1);
                        assert(next == prev.push((inp.id@, match inp.placeholder { Some(p) => p@, None => Seq::empty() })));
                        assert(next.map_values(f) =~= prev.map_values(f).push(inp.id@));
                        assert(string_views(created_ids@) =~= ids_before.push(inp.id@));
                    }
                }
                assert(created@.map_values(|p: (String, String)| (p.0@, p.1@)) =~= fields_created(tree.nodes@, kv, n + 1));
                assert(string_views(created_ids@) =~= fields_created(tree.nodes@, kv, n + 1).map_values(|p: (Seq<char>, Seq<char>)| p.0));
            },
            _ => {
                assert(fields_created(tree.nodes@, kv, n + 1) == prev);
            },
        }
        n += 1;
    }
    (kept, created)
}

/// The focus handles to create for the first `n` nodes: each container's
/// handle id that the host has no handle for yet, once, in node order.
pub open spec fn handles_created(nodes: Seq<UiNode>, existing: Seq<u32>, n: int) -> Seq<u32>
    decreases n,
{
    if n <= 0 || n > nodes.len() {
        Seq::empty()
    } else {
        let prev = handles_created(nodes, existing, n - 1);
        match nodes[n - 1] {
            UiNode::Div(d) => match d.focus_handle_id {
                Some(h) => if existing.contains(h) || prev.contains(h) { prev } else { prev.push(h) },
                None => prev,
            },
            _ => prev,
        }
    }
}

/// The focus handles the host must create for a new tree, given the ids of
/// those it has; existing handles are kept as they are.
pub fn focus_handle_plan(existing: &Vec<u32>, tree: &UiTree) -> (r: Vec<u32>)
    ensures
        r@ == handles_created(tree.nodes@, existing@, tree.nodes@.len() as int),
{
    let mut created: Vec<u32> = Vec::new();
    let mut n: usize = 0;
    while n < tree.nodes.len()
        invariant
            n <= tree.nodes@.len(),
            created@ == handles_created(tree.nodes@, existing@, n as int),
        decreases tree.nodes@.len() - n,
    {
        match &tree.nodes[n] {
            UiNode::Div(d) => match d.focus_handle_id {
                Some(h) => {
                    if !crate::renderer::contains_u32(existing, h) && !crate::renderer::contains_u32(&created, h) {
                        created.push(h);
                    }
                },
                None => {},
            },
            _ => {},
        }
        n += 1;
    }
    created
}

} // verus!
