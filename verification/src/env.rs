//! Staged environment updates and their resolution against an ambient
//! environment snapshot.
//!
//! An [`EnvBuilder`] collects one update per variable plus an inheritance
//! flag. Resolution is total: it starts from the ambient snapshot when
//! inheriting (from nothing otherwise) and then applies every staged update.
//! The ambient snapshot is injected at resolution time, so resolution always
//! reflects the environment of the moment it is asked for.

use vstd::prelude::*;

verus! {

/// One staged change to a single environment variable of the child process.
#[derive(Debug, Clone, PartialEq, Eq)]
pub enum EnvUpdate {
    /// Give the variable exactly this value.
    Assign(String),
    /// Remove the variable, even if inheritance would have provided it.
    Unset,
    /// Take the value from the ambient environment at resolution time, even
    /// if inheritance is disabled; if absent there, the variable stays absent.
    Inherit,
}

/// Specification-level form of an [`EnvUpdate`], over character sequences.
pub enum EnvUpdateView {
    Assign(Seq<char>),
    Unset,
    Inherit,
}

impl View for EnvUpdate {
    type V = EnvUpdateView;

    open spec fn view(&self) -> EnvUpdateView {
        match self {
            EnvUpdate::Assign(value) => EnvUpdateView::Assign(value@),
            EnvUpdate::Unset => EnvUpdateView::Unset,
            EnvUpdate::Inherit => EnvUpdateView::Inherit,
        }
    }
}

/// The mapping denoted by an association list of string keys: an entry
/// overrides every earlier entry with the same key.
pub open spec fn assoc_map<V: View>(entries: Seq<(String, V)>) -> Map<Seq<char>, V::V>
    decreases entries.len(),
{
    if entries.len() == 0 {
        Map::empty()
    } else {
        assoc_map(entries.drop_last()).insert(entries.last().0@, entries.last().1@)
    }
}

/// Whether the keys of an association list are pairwise distinct.
pub open spec fn distinct_keys<V>(entries: Seq<(String, V)>) -> bool {
    forall|i: int, j: int| 0 <= i < j < entries.len() ==> entries[i].0@ != entries[j].0@
}

/// A key is in the denoted mapping exactly when some entry carries it.
pub proof fn lemma_assoc_map_domain<V: View>(entries: Seq<(String, V)>, key: Seq<char>)
    ensures
        assoc_map(entries).dom().contains(key) <==> (exists|i: int|
            0 <= i < entries.len() && entries[i].0@ == key),
    decreases entries.len(),
{
    if entries.len() > 0 {
        lemma_assoc_map_domain(entries.drop_last(), key);
        if entries.last().0@ != key {
            if exists|i: int| 0 <= i < entries.len() && entries[i].0@ == key {
                let i = choose|i: int| 0 <= i < entries.len() && entries[i].0@ == key;
                assert(entries.drop_last()[i] == entries[i]);
            }
        }
    }
}

/// With pairwise distinct keys, every entry is reflected verbatim in the
/// denoted mapping.
pub proof fn lemma_assoc_map_entry<V: View>(entries: Seq<(String, V)>, i: int)
    requires
        distinct_keys(entries),
        0 <= i < entries.len(),
    ensures
        assoc_map(entries).dom().contains(entries[i].0@),
        assoc_map(entries)[entries[i].0@] == entries[i].1@,
    decreases entries.len(),
{
    if i + 1 < entries.len() {
        assert(entries.drop_last()[i] == entries[i]);
        lemma_assoc_map_entry(entries.drop_last(), i);
    }
}

/// Looks up the value of the last entry with the given key.
#[verifier::loop_isolation(false)]
pub fn assoc_lookup<'a, V: View>(entries: &'a Vec<(String, V)>, key: &String) -> (r: Option<
    &'a V,
>)
    requires
        distinct_keys(entries@),
    ensures
        match r {
            Some(value) => assoc_map(entries@).dom().contains(key@) && value@ == assoc_map(
                entries@,
            )[key@],
            None => !assoc_map(entries@).dom().contains(key@),
        },
{
    let ghost entry_seq = entries@;
    let mut i: usize = 0;
    while i < entries.len()
        invariant
            distinct_keys(entry_seq),
            entries@ == entry_seq,
            0 <= i <= entry_seq.len(),
            forall|j: int| 0 <= j < i ==> entry_seq[j].0@ != key@,
        decreases entry_seq.len() - i,
    {
        if entries[i].0 == *key {
            proof {
                lemma_assoc_map_entry(entry_seq, i as int);
            }
            return Some(&entries[i].1);
        }
        i += 1;
    }
    proof {
        lemma_assoc_map_domain(entry_seq, key@);
    }
    None
}

/// The staged updates after appending a sequence of key/update pairs, one
/// after the other, to an existing staging map. Later pairs win on key
/// conflicts, exactly as repeated single insertion would.
pub open spec fn staged_after(
    start: Map<Seq<char>, EnvUpdateView>,
    entries: Seq<(Seq<char>, EnvUpdateView)>,
) -> Map<Seq<char>, EnvUpdateView>
    decreases entries.len(),
{
    if entries.len() == 0 {
        start
    } else {
        staged_after(start, entries.drop_last()).insert(entries.last().0, entries.last().1)
    }
}

/// The view of a list of key/update pairs.
pub open spec fn entries_view(entries: Seq<(String, EnvUpdate)>) -> Seq<
    (Seq<char>, EnvUpdateView),
> {
    entries.map_values(|entry: (String, EnvUpdate)| (entry.0@, entry.1@))
}

/// The value, if any, that an explicit update leaves its key with, for a
/// given ambient environment snapshot.
pub open spec fn update_outcome(
    update: EnvUpdateView,
    key: Seq<char>,
    ambient: Map<Seq<char>, Seq<char>>,
) -> Option<Seq<char>> {
    match update {
        EnvUpdateView::Assign(value) => Some(value),
        EnvUpdateView::Unset => None,
        EnvUpdateView::Inherit => if ambient.dom().contains(key) {
            Some(ambient[key])
        } else {
            None
        },
    }
}

/// The child environment that a builder state denotes for a given ambient
/// snapshot: start from the snapshot when inheriting (from nothing
/// otherwise), then apply every explicit update to its key.
pub open spec fn resolved_env(
    inherit_env: bool,
    updates: Map<Seq<char>, EnvUpdateView>,
    ambient: Map<Seq<char>, Seq<char>>,
) -> Map<Seq<char>, Seq<char>> {
    Map::new(
        |key: Seq<char>|
            if updates.dom().contains(key) {
                update_outcome(updates[key], key, ambient) is Some
            } else {
                inherit_env && ambient.dom().contains(key)
            },
        |key: Seq<char>|
            if updates.dom().contains(key) {
                update_outcome(updates[key], key, ambient)->0
            } else {
                ambient[key]
            },
    )
}

/// Resolves the final child-process environment from an inheritance flag and
/// per-variable update rules; see the module documentation.
#[derive(Debug)]
pub struct EnvBuilder {
    inherit_env: bool,
    updates: Vec<(String, EnvUpdate)>,
}

/// Specification-level form of an [`EnvBuilder`]: the inheritance flag plus
/// the staged updates as a mapping (keys are unique; the last write to a key
/// wins; beyond that, insertion order does not matter).
pub struct EnvBuilderView {
    pub inherit_env: bool,
    pub updates: Map<Seq<char>, EnvUpdateView>,
}

impl View for EnvBuilder {
    type V = EnvBuilderView;

    closed spec fn view(&self) -> EnvBuilderView {
        EnvBuilderView { inherit_env: self.inherit_env, updates: assoc_map(self.updates@) }
    }
}

impl EnvBuilder {
    #[verifier::type_invariant]
    spec fn keys_distinct(self) -> bool {
        distinct_keys(self.updates@)
    }

    /// A builder with no staged updates that inherits the ambient environment.
    pub fn new() -> (r: EnvBuilder)
        ensures
            r@.inherit_env == true,
            r@.updates == Map::<Seq<char>, EnvUpdateView>::empty(),
    {
        EnvBuilder { inherit_env: true, updates: Vec::new() }
    }

    /// Whether variables not named by any update are inherited from the
    /// ambient environment.
    pub fn inherit_env(&self) -> (r: bool)
        ensures
            r == self@.inherit_env,
    {
        self.inherit_env
    }

    /// Returns this builder with the inheritance flag replaced.
    pub fn set_inherit_env(self, inherit_env: bool) -> (r: EnvBuilder)
        ensures
            r@ == (EnvBuilderView { inherit_env, ..self@ }),
    {
        proof {
            use_type_invariant(&self);
        }
        let EnvBuilder { inherit_env: _, updates } = self;
        EnvBuilder { inherit_env, updates }
    }

    /// The staged updates, in insertion order of their keys; read-only
    /// introspection that does not trigger resolution.
    pub fn env_updates(&self) -> (r: &Vec<(String, EnvUpdate)>)
        ensures
            distinct_keys(r@),
            assoc_map(r@) == self@.updates,
    {
        proof {
            use_type_invariant(self);
        }
        &self.updates
    }

    /// Returns this builder with one update staged; an earlier update to the
    /// same key is replaced.
    #[verifier::loop_isolation(false)]
    pub fn insert_update(self, key: String, update: EnvUpdate) -> (r: EnvBuilder)
        ensures
            r@ == (EnvBuilderView { updates: self@.updates.insert(key@, update@), ..self@ }),
    {
        proof {
            use_type_invariant(&self);
        }
        let EnvBuilder { inherit_env, mut updates } = self;
        let ghost old_updates = updates@;
        let mut i: usize = 0;
        let mut found = false;
        while i < updates.len() && !found
            invariant
                distinct_keys(updates@),
                updates@ == old_updates,
                0 <= i <= updates@.len(),
                !found ==> forall|j: int| 0 <= j < i ==> updates@[j].0@ != key@,
                found ==> i < updates@.len() && updates@[i as int].0@ == key@,
            decreases (if found { 0int } else { updates@.len() - i }),
        {
            if updates[i].0 == key {
                found = true;
            } else {
                i += 1;
            }
        }
        if found {
            updates.remove(i);
            proof {
                lemma_remove_key_preserves_others(old_updates, i as int, key@);
            }
        } else {
            proof {
                lemma_assoc_map_domain(old_updates, key@);
            }
        }
        proof {
            lemma_absent_key_push(updates@, key@, update@);
            if found {
                lemma_absent_key_same_map(old_updates, updates@, key@);
            }
        }
        updates.push((key, update));
        EnvBuilder { inherit_env, updates }
    }

    /// Returns this builder with every given pair staged in order, exactly as
    /// the same sequence of single insertions would; a later pair wins over
    /// an earlier one (and over an already staged update) with the same key.
    #[verifier::loop_isolation(false)]
    pub fn insert_updates(self, entries: Vec<(String, EnvUpdate)>) -> (r: EnvBuilder)
        ensures
            r@ == (EnvBuilderView {
                updates: staged_after(self@.updates, entries_view(entries@)),
                ..self@
            }),
    {
        let ghost all_entries = entries@;
        let ghost n = entries@.len() as int;
        let ghost start = self@;
        let mut builder = self;
        let mut entries = entries;
        let ghost mut i: int = 0;
        proof {
            assert(all_entries.subrange(0, n) =~= all_entries);
            assert(entries_view(all_entries.subrange(0, 0)) =~= Seq::<
                (Seq<char>, EnvUpdateView),
            >::empty());
        }
        while entries.len() > 0
            invariant
                0 <= i <= n,
                entries@ == all_entries.subrange(i, n),
                builder@.inherit_env == start.inherit_env,
                builder@.updates == staged_after(
                    start.updates,
                    entries_view(all_entries.subrange(0, i)),
                ),
            decreases entries@.len(),
        {
            let (key, update) = entries.remove(0);
            proof {
                assert(all_entries.subrange(i, n)[0] == all_entries[i]);
            }
            builder = builder.insert_update(key, update);
            proof {
                let prefix = entries_view(all_entries.subrange(0, i));
                let next = entries_view(all_entries.subrange(0, i + 1));
                assert(next.drop_last() =~= prefix);
                assert(next.last() == (all_entries[i].0@, all_entries[i].1@));
                assert(entries@ =~= all_entries.subrange(i + 1, n));
                i = i + 1;
            }
        }
        proof {
            assert(all_entries.subrange(0, n) =~= all_entries);
        }
        builder
    }

    /// Resolves the child environment against the given ambient snapshot.
    /// The snapshot must carry each variable at most once, as a real process
    /// environment does.
    #[verifier::loop_isolation(false)]
    pub fn resolve(&self, ambient: &Vec<(String, String)>) -> (r: Vec<(String, String)>)
        requires
            distinct_keys(ambient@),
        ensures
            distinct_keys(r@),
            assoc_map(r@) == resolved_env(self@.inherit_env, self@.updates, assoc_map(ambient@)),
    {
        proof {
            use_type_invariant(self);
        }
        let ghost ambient_map = assoc_map(ambient@);
        let ghost updates_map = self@.updates;
        let ghost goal = resolved_env(self@.inherit_env, updates_map, ambient_map);
        let mut out: Vec<(String, String)> = Vec::new();
        if self.inherit_env {
            let mut i: usize = 0;
            while i < ambient.len()
                invariant
                    distinct_keys(ambient@),
                    distinct_keys(self.updates@),
                    updates_map == assoc_map(self.updates@),
                    ambient_map == assoc_map(ambient@),
                    0 <= i <= ambient@.len(),
                    distinct_keys(out@),
                    forall|j: int| #![trigger out@[j]]
                        0 <= j < out@.len() ==> !updates_map.dom().contains(out@[j].0@)
                            && exists|k: int|
                            0 <= k < i && (#[trigger] ambient@[k]).0@ == out@[j].0@,
                    assoc_map(out@) =~= Map::new(
                        |key: Seq<char>|
                            !updates_map.dom().contains(key) && (exists|k: int|
                                0 <= k < i && ambient@[k].0@ == key),
                        |key: Seq<char>| ambient_map[key],
                    ),
                decreases ambient@.len() - i,
            {
                let (key, value) = &ambient[i];
                let staged = assoc_lookup(&self.updates, key);
                if staged.is_none() {
                    proof {
                        lemma_assoc_map_entry(ambient@, i as int);
                        lemma_absent_key_push(out@, key@, value@);
                        lemma_assoc_map_domain(out@, key@);
                    }
                    out.push((key.clone(), value.clone()));
                    proof {
                        assert(assoc_map(out@) =~= Map::new(
                            |k: Seq<char>|
                                !updates_map.dom().contains(k) && (exists|j: int|
                                    0 <= j < i + 1 && ambient@[j].0@ == k),
                            |k: Seq<char>| ambient_map[k],
                        ));
                    }
                } else {
                    proof {
                        assert(assoc_map(out@) =~= Map::new(
                            |k: Seq<char>|
                                !updates_map.dom().contains(k) && (exists|j: int|
                                    0 <= j < i + 1 && ambient@[j].0@ == k),
                            |k: Seq<char>| ambient_map[k],
                        ));
                    }
                }
                i += 1;
            }
            proof {
                lemma_restrict_is_base(self.updates@, ambient@, goal);
                assert forall|k: int|
                    0 <= k < out@.len() implies !key_set(self.updates@, 0).contains(
                    out@[k].0@,
                ) by {
                    lemma_assoc_map_domain(self.updates@, out@[k].0@);
                }
            }
        } else {
            proof {
                assert(assoc_map(out@) =~= Map::<Seq<char>, Seq<char>>::empty());
                assert forall|key: Seq<char>| #![auto] goal.dom().contains(key) implies key_set(
                    self.updates@,
                    0,
                ).contains(key) by {
                    lemma_assoc_map_domain(self.updates@, key);
                }
                assert(goal.remove_keys(key_set(self.updates@, 0)) =~= Map::<
                    Seq<char>,
                    Seq<char>,
                >::empty());
            }
        }
        // `out` now agrees with the goal on every key that no staged update
        // names; apply the staged updates one by one.
        let mut j: usize = 0;
        while j < self.updates.len()
            invariant
                distinct_keys(ambient@),
                distinct_keys(self.updates@),
                updates_map == assoc_map(self.updates@),
                ambient_map == assoc_map(ambient@),
                goal == resolved_env(self@.inherit_env, updates_map, ambient_map),
                0 <= j <= self.updates@.len(),
                distinct_keys(out@),
                assoc_map(out@) =~= goal.remove_keys(key_set(self.updates@, j as int)),
                forall|k: int| #![auto]
                    0 <= k < out@.len() ==> !key_set(self.updates@, j as int).contains(
                        out@[k].0@,
                    ),
            decreases self.updates@.len() - j,
        {
            let (key, update) = &self.updates[j];
            proof {
                lemma_assoc_map_entry(self.updates@, j as int);
                assert(key_set(self.updates@, j as int).contains(key@));
                assert(key_set(self.updates@, j + 1 as int) =~= key_set(
                    self.updates@,
                    j as int,
                ).remove(key@));
            }
            let pushed: Option<String> = match update {
                EnvUpdate::Assign(value) => Some(value.clone()),
                EnvUpdate::Unset => None,
                EnvUpdate::Inherit => match assoc_lookup(ambient, key) {
                    Some(value) => Some(value.clone()),
                    None => None,
                },
            };
            match pushed {
                Some(value) => {
                    proof {
                        lemma_absent_key_push(out@, key@, value@);
                        lemma_assoc_map_domain(out@, key@);
                        assert(goal.dom().contains(key@) && goal[key@] == value@);
                    }
                    out.push((key.clone(), value));
                    proof {
                        assert(assoc_map(out@) =~= goal.remove_keys(
                            key_set(self.updates@, j + 1 as int),
                        ));
                    }
                },
                None => {
                    proof {
                        assert(!goal.dom().contains(key@));
                        assert(assoc_map(out@) =~= goal.remove_keys(
                            key_set(self.updates@, j + 1 as int),
                        ));
                    }
                },
            }
            j += 1;
        }
        proof {
            assert(key_set(self.updates@, self.updates@.len() as int) =~= Set::<
                Seq<char>,
            >::empty());
            assert(assoc_map(out@) =~= goal);
        }
        out
    }
}

impl Default for EnvBuilder {
    /// Same as [`EnvBuilder::new`]: inherit everything, stage nothing.
    fn default() -> (r: EnvBuilder)
        ensures
            r@.inherit_env == true,
            r@.updates == Map::<Seq<char>, EnvUpdateView>::empty(),
    {
        EnvBuilder::new()
    }
}

/// Law: with inheritance enabled and no explicit updates staged, the
/// resolved environment is the ambient environment, exactly.
pub proof fn lemma_inherit_alone_is_ambient(ambient: Map<Seq<char>, Seq<char>>)
    ensures
        resolved_env(true, Map::empty(), ambient) == ambient,
{
    assert(resolved_env(true, Map::empty(), ambient) =~= ambient);
}

/// Law: with inheritance disabled and no explicit updates staged, the
/// resolved environment is empty.
pub proof fn lemma_no_inherit_alone_is_empty(ambient: Map<Seq<char>, Seq<char>>)
    ensures
        resolved_env(false, Map::empty(), ambient) == Map::<Seq<char>, Seq<char>>::empty(),
{
    assert(resolved_env(false, Map::empty(), ambient) =~= Map::<Seq<char>, Seq<char>>::empty());
}

/// The environment obtained by applying updates one at a time, in order, on
/// top of an already resolved environment.
pub open spec fn applied_in_order(
    env: Map<Seq<char>, Seq<char>>,
    entries: Seq<(Seq<char>, EnvUpdateView)>,
    ambient: Map<Seq<char>, Seq<char>>,
) -> Map<Seq<char>, Seq<char>>
    decreases entries.len(),
{
    if entries.len() == 0 {
        env
    } else {
        let applied = applied_in_order(env, entries.drop_last(), ambient);
        match update_outcome(entries.last().1, entries.last().0, ambient) {
            Some(value) => applied.insert(entries.last().0, value),
            None => applied.remove(entries.last().0),
        }
    }
}

/// Law: however a sequence of updates arrived — one by one through
/// [`EnvBuilder::insert_update`] or in bulk through
/// [`EnvBuilder::insert_updates`], which both stage `staged_after` — the
/// resolved environment equals resolving the starting state first and then
/// applying every update in arrival order, a later update to a key
/// overriding an earlier one.
pub proof fn lemma_resolution_in_arrival_order(
    inherit_env: bool,
    start: Map<Seq<char>, EnvUpdateView>,
    entries: Seq<(Seq<char>, EnvUpdateView)>,
    ambient: Map<Seq<char>, Seq<char>>,
)
    ensures
        resolved_env(inherit_env, staged_after(start, entries), ambient) == applied_in_order(
            resolved_env(inherit_env, start, ambient),
            entries,
            ambient,
        ),
    decreases entries.len(),
{
    if entries.len() > 0 {
        lemma_resolution_in_arrival_order(inherit_env, start, entries.drop_last(), ambient);
        let key = entries.last().0;
        let update = entries.last().1;
        let staged = staged_after(start, entries.drop_last());
        match update_outcome(update, key, ambient) {
            Some(value) => {
                assert(resolved_env(inherit_env, staged.insert(key, update), ambient)
                    =~= resolved_env(inherit_env, staged, ambient).insert(key, value));
            },
            None => {
                assert(resolved_env(inherit_env, staged.insert(key, update), ambient)
                    =~= resolved_env(inherit_env, staged, ambient).remove(key));
            },
        }
    }
}

/// The set of keys of the entries from position `from` on.
pub open spec fn key_set<V>(entries: Seq<(String, V)>, from: int) -> Set<Seq<char>> {
    Set::new(|key: Seq<char>| exists|i: int| from <= i < entries.len() && entries[i].0@ == key)
}

/// Pushing an entry whose key the list does not yet carry inserts exactly
/// that key into the denoted mapping and keeps the keys distinct.
proof fn lemma_absent_key_push<V: View>(entries: Seq<(String, V)>, key: Seq<char>, value: V::V)
    requires
        distinct_keys(entries),
        forall|i: int| 0 <= i < entries.len() ==> entries[i].0@ != key,
    ensures
        forall|entry: (String, V)| #![auto]
            entry.0@ == key && entry.1@ == value ==> distinct_keys(entries.push(entry))
                && assoc_map(entries.push(entry)) == assoc_map(entries).insert(key, value),
{
    assert forall|entry: (String, V)| #![auto]
        entry.0@ == key && entry.1@ == value implies distinct_keys(entries.push(entry))
        && assoc_map(entries.push(entry)) == assoc_map(entries).insert(key, value) by {
        let pushed = entries.push(entry);
        assert(pushed.drop_last() =~= entries);
        assert(forall|i: int, j: int|
            0 <= i < j < pushed.len() ==> pushed[i].0@ != pushed[j].0@);
    }
}

/// Two lists that both lack a key and denote the same mapping stay equal
/// after the key is inserted on top; used when an entry is removed and
/// re-pushed with a new value.
proof fn lemma_absent_key_same_map<V: View>(
    before: Seq<(String, V)>,
    after: Seq<(String, V)>,
    key: Seq<char>,
)
    requires
        assoc_map(after) == assoc_map(before).remove(key),
    ensures
        forall|value: V::V|
            assoc_map(after).insert(key, value) == assoc_map(before).insert(key, value),
{
    assert forall|value: V::V|
        assoc_map(after).insert(key, value) == assoc_map(before).insert(key, value) by {
        assert(assoc_map(after).insert(key, value) =~= assoc_map(before).insert(key, value));
    }
}

/// Removing the (single) entry with a key denotes the prior mapping with
/// that key removed.
proof fn lemma_remove_key_preserves_others<V: View>(
    entries: Seq<(String, V)>,
    at: int,
    key: Seq<char>,
)
    requires
        distinct_keys(entries),
        0 <= at < entries.len(),
        entries[at].0@ == key,
    ensures
        distinct_keys(entries.remove(at)),
        assoc_map(entries.remove(at)) == assoc_map(entries).remove(key),
    decreases entries.len(),
{
    let removed = entries.remove(at);
    assert(forall|i: int, j: int|
        0 <= i < j < removed.len() ==> removed[i].0@ != removed[j].0@);
    if at == entries.len() - 1 {
        assert(removed =~= entries.drop_last());
        lemma_assoc_map_domain(entries.drop_last(), key);
        assert(assoc_map(entries.drop_last()) =~= assoc_map(entries).remove(key));
    } else {
        let last = entries.last();
        lemma_remove_key_preserves_others(entries.drop_last(), at, key);
        assert(removed.drop_last() =~= entries.drop_last().remove(at));
        assert(removed.last() == last);
        assert(assoc_map(removed) =~= assoc_map(entries).remove(key));
    }
}

/// On keys that no staged update names, the resolved environment is the
/// ambient mapping under inheritance.
proof fn lemma_restrict_is_base(
    updates: Seq<(String, EnvUpdate)>,
    ambient: Seq<(String, String)>,
    goal: Map<Seq<char>, Seq<char>>,
)
    requires
        distinct_keys(ambient),
        goal == resolved_env(true, assoc_map(updates), assoc_map(ambient)),
    ensures
        Map::new(
            |key: Seq<char>|
                !assoc_map(updates).dom().contains(key) && (exists|k: int|
                    0 <= k < ambient.len() && ambient[k].0@ == key),
            |key: Seq<char>| assoc_map(ambient)[key],
        ) == goal.remove_keys(key_set(updates, 0)),
{
    let lhs = Map::new(
        |key: Seq<char>|
            !assoc_map(updates).dom().contains(key) && (exists|k: int|
                0 <= k < ambient.len() && ambient[k].0@ == key),
        |key: Seq<char>| assoc_map(ambient)[key],
    );
    assert forall|key: Seq<char>| #![auto] lhs.dom().contains(key)
        == goal.remove_keys(key_set(updates, 0)).dom().contains(key) by {
        lemma_assoc_map_domain(updates, key);
        lemma_assoc_map_domain(ambient, key);
        assert(assoc_map(updates).dom().contains(key) <==> key_set(updates, 0).contains(key));
    }
    assert(lhs =~= goal.remove_keys(key_set(updates, 0)));
}

} // verus!
