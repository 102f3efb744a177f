//! Commands that extensions register at runtime, and the filter that hides
//! actions from the command palette.
use vstd::prelude::*;
use std::collections::HashSet;
use crate::text::{chars_eq, chars_of};

verus! {

broadcast use vstd::std_specs::hash::group_hash_axioms;

/// A command dynamically registered at runtime by an extension.
pub struct DynamicCommand {
    /// Display name shown in the command palette.
    pub name: String,
    /// Extension that registered this command, used to bulk-unregister it when
    /// the extension unloads.
    pub extension_id: String,
    /// Opaque identifier passed back to the extension when the command runs.
    pub command_id: String,
}

/// Registry of commands dynamically registered by extensions at runtime.
pub struct DynamicCommandRegistry {
    commands: Vec<DynamicCommand>,
}

/// The commands of `s` that extension `extension_id` did not register, in order.
pub open spec fn without_extension(s: Seq<DynamicCommand>, extension_id: Seq<char>) -> Seq<DynamicCommand>
    decreases s.len(),
{
    if s.len() == 0 {
        Seq::empty()
    } else {
        let kept = without_extension(s.drop_last(), extension_id);
        if s.last().extension_id@ != extension_id {
            kept.push(s.last())
        } else {
            kept
        }
    }
}

impl View for DynamicCommandRegistry {
    type V = Seq<DynamicCommand>;

    closed spec fn view(&self) -> Seq<DynamicCommand> {
        self.commands@
    }
}

impl DynamicCommandRegistry {
    /// An empty registry.
    pub fn new() -> (r: Self)
        ensures
            r@ == Seq::<DynamicCommand>::empty(),
    {
        DynamicCommandRegistry { commands: Vec::new() }
    }

    /// Registers a new dynamic command.
    pub fn register(&mut self, command: DynamicCommand)
        ensures
            final(self)@ == old(self)@.push(command),
    {
        self.commands.push(command);
    }

    /// Removes all commands registered by the given extension.
    pub fn unregister_extension(&mut self, extension_id: &str)
        ensures
            final(self)@ == without_extension(old(self)@, extension_id@),
    {
        let ghost orig = self.commands@;
        let target = chars_of(extension_id);
        let mut rest: Vec<DynamicCommand> = Vec::new();
        std::mem::swap(&mut rest, &mut self.commands);
        let mut k: usize = 0;
        let n = rest.len();
        proof {
            assert(orig.take(0) =~= Seq::<DynamicCommand>::empty());
        }
        while rest.len() > 0
            invariant
                n == orig.len(),
                k <= orig.len(),
                rest@ == orig.skip(k as int),
                target@ == extension_id@,
                self.commands@ == without_extension(orig.take(k as int), extension_id@),
            decreases rest@.len(),
        {
            let command = rest.remove(0);
            proof {
                assert(orig.take(k + 1).drop_last() =~= orig.take(k as int));
                assert(command == orig[k as int]);
                assert(orig.skip(k + 1) =~= orig.skip(k as int).drop_first());
            }
            let id = chars_of(command.extension_id.as_str());
            if !chars_eq(&id, &target) {
                self.commands.push(command);
            }
            k = k + 1;
        }
        proof {
            assert(orig.take(k as int) =~= orig);
        }
    }

    /// All registered dynamic commands, in registration order.
    pub fn commands(&self) -> (r: &[DynamicCommand])
        ensures
            r@ == self@,
    {
        self.commands.as_slice()
    }
}

/// Global wrapper for [`DynamicCommandRegistry`], stored in the app context.
pub struct GlobalDynamicCommandRegistry(pub DynamicCommandRegistry);

impl GlobalDynamicCommandRegistry {
    pub fn new() -> (r: Self)
        ensures
            r.0@ == Seq::<DynamicCommand>::empty(),
    {
        GlobalDynamicCommandRegistry(DynamicCommandRegistry::new())
    }
}

/// Index of the first `"::"` in `s` at or after `i`, or `s.len()` if there is none.
pub open spec fn separator_from(s: Seq<char>, i: int) -> int
    decreases s.len() - i,
{
    if i < 0 || i + 1 >= s.len() {
        s.len() as int
    } else if s[i] == ':' && s[i + 1] == ':' {
        i
    } else {
        separator_from(s, i + 1)
    }
}

/// The namespace of an action name: the text before its first `"::"`, or the
/// whole name if it has none.
pub open spec fn namespace_of(name: Seq<char>) -> Seq<char> {
    name.take(separator_from(name, 0))
}

pub proof fn lemma_separator_from_bounds(s: Seq<char>, i: int)
    requires
        0 <= i,
    ensures
        i <= separator_from(s, i) <= s.len() || separator_from(s, i) == s.len(),
        separator_from(s, i) <= s.len(),
    decreases s.len() - i,
{
    if i + 1 < s.len() && !(s[i] == ':' && s[i + 1] == ':') {
        lemma_separator_from_bounds(s, i + 1);
    }
}

/// Index of the first `"::"` in `chars`, or its length if there is none.
fn first_separator(chars: &Vec<char>) -> (r: usize)
    ensures
        r == separator_from(chars@, 0),
{
    let mut i: usize = 0;
    while i < chars.len()
        invariant
            i <= chars@.len(),
            separator_from(chars@, 0) == separator_from(chars@, i as int),
        decreases chars@.len() - i,
    {
        if i + 1 < chars.len() && chars[i] == ':' && chars[i + 1] == ':' {
            return i;
        }
        assert(separator_from(chars@, i as int) == separator_from(chars@, i + 1));
        i += 1;
    }
    chars.len()
}

/// The namespace of an action name.
pub fn action_namespace(name: &str) -> (ns: Vec<char>)
    ensures
        ns@ == namespace_of(name@),
{
    let chars = chars_of(name);
    let end = first_separator(&chars);
    proof {
        lemma_separator_from_bounds(chars@, 0);
    }
    let mut ns: Vec<char> = Vec::new();
    let mut j: usize = 0;
    while j < end
        invariant
            chars@ == name@,
            end == separator_from(chars@, 0),
            end <= chars@.len(),
            j <= end,
            ns@ == chars@.take(j as int),
        decreases end - j,
    {
        ns.push(chars[j]);
        proof {
            assert(chars@.take(j + 1) =~= chars@.take(j as int).push(chars@[j as int]));
        }
        j += 1;
    }
    ns
}

/// Whether an action is hidden: it is unless its type was explicitly shown,
/// and it is if its namespace or its type was hidden.
pub open spec fn spec_is_hidden(
    hidden_namespaces: Set<Seq<char>>,
    hidden_action_types: Set<u64>,
    shown_action_types: Set<u64>,
    name: Seq<char>,
    action_type: u64,
) -> bool {
    !shown_action_types.contains(action_type) && (hidden_namespaces.contains(namespace_of(name))
        || hidden_action_types.contains(action_type))
}

/// A filter for the command palette. Action types are identified by integer
/// keys that the caller assigns, one per type.
pub struct CommandPaletteFilter {
    hidden_namespaces: Vec<Vec<char>>,
    hidden_action_types: HashSet<u64>,
    /// Actions that have explicitly been shown. These are shown even if they
    /// are in a hidden namespace.
    shown_action_types: HashSet<u64>,
}

impl CommandPaletteFilter {
    /// The hidden namespaces.
    pub closed spec fn hidden_namespaces(&self) -> Set<Seq<char>> {
        Set::new(|ns: Seq<char>| exists|i: int| 0 <= i < self.hidden_namespaces@.len() && self.hidden_namespaces@[i]@ == ns)
    }

    /// The explicitly hidden action types.
    pub closed spec fn hidden_action_types(&self) -> Set<u64> {
        self.hidden_action_types@
    }

    /// The explicitly shown action types.
    pub closed spec fn shown_action_types(&self) -> Set<u64> {
        self.shown_action_types@
    }

    /// A filter that hides nothing.
    pub fn new() -> (r: Self)
        ensures
            r.hidden_namespaces() == Set::<Seq<char>>::empty(),
            r.hidden_action_types() == Set::<u64>::empty(),
            r.shown_action_types() == Set::<u64>::empty(),
    {
        let r = CommandPaletteFilter {
            hidden_namespaces: Vec::new(),
            hidden_action_types: HashSet::new(),
            shown_action_types: HashSet::new(),
        };
        assert(r.hidden_namespaces() =~= Set::<Seq<char>>::empty());
        r
    }

    /// Returns whether the action with the given name and type is hidden.
    pub fn is_hidden(&self, action_name: &str, action_type: u64) -> (r: bool)
        ensures
            r == spec_is_hidden(
                self.hidden_namespaces(),
                self.hidden_action_types(),
                self.shown_action_types(),
                action_name@,
                action_type,
            ),
    {
        let namespace = action_namespace(action_name);
        // An action that has specifically been shown is visible.
        if self.shown_action_types.contains(&action_type) {
            return false;
        }
        let mut i: usize = 0;
        while i < self.hidden_namespaces.len()
            invariant
                i <= self.hidden_namespaces@.len(),
                namespace@ == namespace_of(action_name@),
                !self.shown_action_types@.contains(action_type),
                forall|j: int| 0 <= j < i ==> self.hidden_namespaces@[j]@ != namespace@,
            decreases self.hidden_namespaces@.len() - i,
        {
            if chars_eq(&self.hidden_namespaces[i], &namespace) {
                assert(self.hidden_namespaces@[i as int]@ == namespace@);
                assert(self.hidden_namespaces().contains(namespace@));
                return true;
            }
            i += 1;
        }
        assert(!self.hidden_namespaces().contains(namespace@));
        self.hidden_action_types.contains(&action_type)
    }

    /// Hides all actions in the given namespace.
    pub fn hide_namespace(&mut self, namespace: &str)
        ensures
            final(self).hidden_namespaces() == old(self).hidden_namespaces().insert(namespace@),
            final(self).hidden_action_types() == old(self).hidden_action_types(),
            final(self).shown_action_types() == old(self).shown_action_types(),
    {
        let ns = chars_of(namespace);
        self.hidden_namespaces.push(ns);
        proof {
            let old_s = old(self).hidden_namespaces();
            let new_s = self.hidden_namespaces();
            assert forall|x: Seq<char>| new_s.contains(x) <==> old_s.insert(namespace@).contains(x) by {
                if old_s.contains(x) {
                    let i = choose|i: int| 0 <= i < old(self).hidden_namespaces@.len() && old(self).hidden_namespaces@[i]@ == x;
                    assert(self.hidden_namespaces@[i] == old(self).hidden_namespaces@[i]);
                }
                if x == namespace@ {
                    assert(self.hidden_namespaces@[self.hidden_namespaces@.len() - 1]@ == x);
                }
                if new_s.contains(x) {
                    let i = choose|i: int| 0 <= i < self.hidden_namespaces@.len() && self.hidden_namespaces@[i]@ == x;
                    if i < old(self).hidden_namespaces@.len() {
                        assert(old(self).hidden_namespaces@[i] == self.hidden_namespaces@[i]);
                    }
                }
            }
            assert(new_s =~= old_s.insert(namespace@));
        }
    }

    /// Shows all actions in the given namespace.
    pub fn show_namespace(&mut self, namespace: &str)
        ensures
            final(self).hidden_namespaces() == old(self).hidden_namespaces().remove(namespace@),
            final(self).hidden_action_types() == old(self).hidden_action_types(),
            final(self).shown_action_types() == old(self).shown_action_types(),
    {
        let ns = chars_of(namespace);
        let ghost orig = self.hidden_namespaces@;
        let mut rest: Vec<Vec<char>> = Vec::new();
        std::mem::swap(&mut rest, &mut self.hidden_namespaces);
        let mut k: usize = 0;
        let n = rest.len();
        while rest.len() > 0
            invariant
                n == orig.len(),
                k <= orig.len(),
                rest@ == orig.skip(k as int),
                ns@ == namespace@,
                self.hidden_action_types@ == old(self).hidden_action_types@,
                self.shown_action_types@ == old(self).shown_action_types@,
                forall|j: int| 0 <= j < self.hidden_namespaces@.len() ==> self.hidden_namespaces@[j]@ != namespace@,
                forall|j: int|
                    #![trigger self.hidden_namespaces@[j]]
                    0 <= j < self.hidden_namespaces@.len() ==> exists|m: int|
                        0 <= m < k && #[trigger] orig[m]@ == self.hidden_namespaces@[j]@,
                forall|m: int|
                    #![trigger orig[m]]
                    0 <= m < k && orig[m]@ != namespace@ ==> exists|j: int|
                        0 <= j < self.hidden_namespaces@.len() && #[trigger] self.hidden_namespaces@[j]@ == orig[m]@,
            decreases rest@.len(),
        {
            let entry = rest.remove(0);
            proof {
                assert(entry == orig[k as int]);
                assert(orig.skip(k + 1) =~= orig.skip(k as int).drop_first());
            }
            let ghost before = self.hidden_namespaces@;
            if !chars_eq(&entry, &ns) {
                self.hidden_namespaces.push(entry);
                proof {
                    let last = (self.hidden_namespaces@.len() - 1) as int;
                    assert(self.hidden_namespaces@[last]@ == orig[k as int]@);
                    assert forall|j: int|
                        #![trigger self.hidden_namespaces@[j]]
                        0 <= j < self.hidden_namespaces@.len() implies exists|m: int|
                            0 <= m < k + 1 && #[trigger] orig[m]@ == self.hidden_namespaces@[j]@ by {
                        if j < last {
                            assert(self.hidden_namespaces@[j] == before[j]);
                        } else {
                            assert(orig[k as int]@ == self.hidden_namespaces@[j]@);
                        }
                    }
                    assert forall|m: int|
                        #![trigger orig[m]]
                        0 <= m < k + 1 && orig[m]@ != namespace@ implies exists|j: int|
                            0 <= j < self.hidden_namespaces@.len() && #[trigger] self.hidden_namespaces@[j]@ == orig[m]@ by {
                        if m < k {
                            let j = choose|j: int| 0 <= j < before.len() && #[trigger] before[j]@ == orig[m]@;
                            assert(self.hidden_namespaces@[j] == before[j]);
                        } else {
                            assert(self.hidden_namespaces@[last]@ == orig[m]@);
                        }
                    }
                }
            }
            k = k + 1;
        }
        proof {
            let old_s = old(self).hidden_namespaces();
            let new_s = self.hidden_namespaces();
            assert(orig == old(self).hidden_namespaces@);
            assert forall|x: Seq<char>| new_s.contains(x) <==> old_s.remove(namespace@).contains(x) by {
                if new_s.contains(x) {
                    let j = choose|j: int| 0 <= j < self.hidden_namespaces@.len() && self.hidden_namespaces@[j]@ == x;
                    let m = choose|m: int| 0 <= m < k && #[trigger] orig[m]@ == self.hidden_namespaces@[j]@;
                    assert(old_s.contains(x));
                }
                if old_s.remove(namespace@).contains(x) {
                    let m = choose|m: int| 0 <= m < orig.len() && orig[m]@ == x;
                    assert(orig[m]@ != namespace@);
                }
            }
            assert(new_s =~= old_s.remove(namespace@));
        }
    }

    /// Hides all actions with the given types; a type that was shown is no
    /// longer shown.
    pub fn hide_action_types(&mut self, action_types: &[u64])
        ensures
            final(self).hidden_namespaces() == old(self).hidden_namespaces(),
            final(self).hidden_action_types() == old(self).hidden_action_types().union(action_types@.to_set()),
            final(self).shown_action_types() == old(self).shown_action_types().difference(action_types@.to_set()),
    {
        let mut i: usize = 0;
        while i < action_types.len()
            invariant
                i <= action_types@.len(),
                self.hidden_namespaces@ == old(self).hidden_namespaces@,
                self.hidden_action_types@ == old(self).hidden_action_types@.union(action_types@.take(i as int).to_set()),
                self.shown_action_types@ == old(self).shown_action_types@.difference(action_types@.take(i as int).to_set()),
            decreases action_types@.len() - i,
        {
            let t = action_types[i];
            self.hidden_action_types.insert(t);
            self.shown_action_types.remove(&t);
            proof {
                assert(action_types@.take(i + 1) =~= action_types@.take(i as int).push(t));
                action_types@.take(i as int).lemma_push_to_set_commute(t);
                assert(self.hidden_action_types@ =~= old(self).hidden_action_types@.union(action_types@.take(i + 1).to_set()));
                assert(self.shown_action_types@ =~= old(self).shown_action_types@.difference(action_types@.take(i + 1).to_set()));
            }
            i += 1;
        }
        proof {
            assert(action_types@.take(i as int) =~= action_types@);
        }
    }

    /// Shows all actions with the given types, even in hidden namespaces; a
    /// type that was hidden is no longer hidden.
    pub fn show_action_types(&mut self, action_types: &[u64])
        ensures
            final(self).hidden_namespaces() == old(self).hidden_namespaces(),
            final(self).shown_action_types() == old(self).shown_action_types().union(action_types@.to_set()),
            final(self).hidden_action_types() == old(self).hidden_action_types().difference(action_types@.to_set()),
    {
        let mut i: usize = 0;
        while i < action_types.len()
            invariant
                i <= action_types@.len(),
                self.hidden_namespaces@ == old(self).hidden_namespaces@,
                self.shown_action_types@ == old(self).shown_action_types@.union(action_types@.take(i as int).to_set()),
                self.hidden_action_types@ == old(self).hidden_action_types@.difference(action_types@.take(i as int).to_set()),
            decreases action_types@.len() - i,
        {
            let t = action_types[i];
            self.shown_action_types.insert(t);
            self.hidden_action_types.remove(&t);
            proof {
                assert(action_types@.take(i + 1) =~= action_types@.take(i as int).push(t));
                action_types@.take(i as int).lemma_push_to_set_commute(t);
                assert(self.shown_action_types@ =~= old(self).shown_action_types@.union(action_types@.take(i + 1).to_set()));
                assert(self.hidden_action_types@ =~= old(self).hidden_action_types@.difference(action_types@.take(i + 1).to_set()));
            }
            i += 1;
        }
        proof {
            assert(action_types@.take(i as int) =~= action_types@);
        }
    }
}

} // verus!
