//! The synchronization protocol for the settings map. The canonical map
//! lives in one place (`SettingsStore`); every writer follows the optimistic
//! protocol: read the current map, apply one change to a deep copy, and
//! replace the canonical map only if it is still structurally unchanged,
//! retrying from a fresh read on failure. No lock is held across the
//! protected operation, and no update is silently lost.

use vstd::prelude::*;

use crate::settings::{
    entries_match_with, lemma_entries_match_sym, lemma_get_insert, lemma_insert_congruence,
    lemma_remove_congruence, spec_get, spec_insert, spec_remove, SettingsMap, SettingsValue,
};

verus! {

/// The canonical settings map, the only state more than one actor may write,
/// and only through `replace_if_unchanged`.
pub struct SettingsStore {
    map: SettingsMap,
}

impl SettingsStore {
    /// The canonical entries.
    pub closed spec fn entries(&self) -> Seq<(String, SettingsValue)> {
        self.map@
    }

    /// The store's validity: its map has unique keys.
    pub open spec fn wf(&self) -> bool {
        crate::settings::unique_keys(self.entries())
    }

    pub fn new() -> (r: Self)
        ensures
            r.entries() == Seq::<(String, SettingsValue)>::empty(),
            r.wf(),
    {
        SettingsStore { map: SettingsMap::new() }
    }

    /// A deep copy of the canonical map, structurally equal to it: the read
    /// step of the optimistic protocol.
    pub fn snapshot(&self) -> (r: SettingsMap)
        ensures
            entries_match_with(r@, self.entries()),
            entries_match_with(self.entries(), r@),
            self.wf() ==> r.wf(),
    {
        self.map.duplicate()
    }

    /// The compare-and-set step of the optimistic protocol: replaces the
    /// canonical map by `new` exactly when the canonical map is still
    /// structurally unchanged from the snapshot `seen`; otherwise leaves it
    /// as it is and reports the contention, and the writer retries.
    pub fn replace_if_unchanged(&mut self, seen: &SettingsMap, new: SettingsMap) -> (r: bool)
        ensures
            r == entries_match_with(old(self).entries(), seen@),
            r ==> final(self).entries() == new@,
            !r ==> *final(self) == *old(self),
    {
        if self.map.is_unchanged(seen) {
            self.map = new;
            true
        } else {
            false
        }
    }

    /// Replaces the canonical map unconditionally (the host clearing the
    /// configuration hands in an empty map).
    pub fn replace(&mut self, new: SettingsMap)
        ensures
            final(self).entries() == new@,
    {
        self.map = new;
    }

    /// Read access to the canonical map.
    pub fn current(&self) -> (r: &SettingsMap)
        ensures
            r@ == self.entries(),
    {
        &self.map
    }

    /// One writer's whole optimistic update, storing `value` under `key`:
    /// read, copy, change, and replace-if-unchanged. With no interference
    /// between its read and its replacement the first attempt succeeds, so
    /// this needs no retry; a concurrent writer would make
    /// `replace_if_unchanged` report contention, and the caller would run
    /// this again on the fresh map.
    pub fn apply_setting(&mut self, key: String, value: SettingsValue)
        requires
            old(self).wf(),
        ensures
            entries_match_with(final(self).entries(), spec_insert(old(self).entries(), key, value)),
            entries_match_with(spec_insert(old(self).entries(), key, value), final(self).entries()),
            final(self).wf(),
    {
        let seen = self.snapshot();
        let mut new = self.snapshot();
        proof {
            lemma_insert_congruence(new@, self.entries(), key, value);
            lemma_insert_congruence(self.entries(), new@, key, value);
        }
        new.insert(key, value);
        proof {
            lemma_entries_match_sym(seen@, self.entries());
        }
        let ok = self.replace_if_unchanged(&seen, new);
        assert(ok);
    }

    /// One writer's whole optimistic removal of `key`, following the same
    /// protocol as `apply_setting`.
    pub fn remove_setting(&mut self, key: &str)
        requires
            old(self).wf(),
        ensures
            entries_match_with(final(self).entries(), spec_remove(old(self).entries(), key@)),
            entries_match_with(spec_remove(old(self).entries(), key@), final(self).entries()),
            final(self).wf(),
    {
        let seen = self.snapshot();
        let mut new = self.snapshot();
        proof {
            lemma_remove_congruence(new@, self.entries(), key@);
            lemma_remove_congruence(self.entries(), new@, key@);
        }
        new.remove(key);
        proof {
            lemma_entries_match_sym(seen@, self.entries());
        }
        let ok = self.replace_if_unchanged(&seen, new);
        assert(ok);
    }
}

/// Two writers race on the same initial map with disjoint keys; the loser of
/// the race retries on the winner's map, so both changes land: the final map
/// holds both writers' values, and every other key keeps its old answer. No
/// update is silently lost.
pub proof fn lemma_two_writers_disjoint_keys(
    s: Seq<(String, SettingsValue)>,
    k1: String,
    v1: SettingsValue,
    k2: String,
    v2: SettingsValue,
)
    requires
        k1@ != k2@,
    ensures
        spec_get(spec_insert(spec_insert(s, k1, v1), k2, v2), k1@) == Some(v1),
        spec_get(spec_insert(spec_insert(s, k1, v1), k2, v2), k2@) == Some(v2),
        forall|k: Seq<char>|
            k != k1@ && k != k2@ ==> spec_get(spec_insert(spec_insert(s, k1, v1), k2, v2), k)
                == spec_get(s, k),
{
    lemma_get_insert(s, k1, v1, k1@);
    lemma_get_insert(spec_insert(s, k1, v1), k2, v2, k1@);
    lemma_get_insert(spec_insert(s, k1, v1), k2, v2, k2@);
    assert forall|k: Seq<char>|
        k != k1@ && k != k2@ implies spec_get(spec_insert(spec_insert(s, k1, v1), k2, v2), k)
        == spec_get(s, k) by {
        lemma_get_insert(spec_insert(s, k1, v1), k2, v2, k);
        lemma_get_insert(s, k1, v1, k);
    }
}

/// Two writers race on the same key; exactly one write wins the race and the
/// other, retried on the winner's map, is applied after it, so the retried
/// writer's value stands. Every other key keeps its old answer.
pub proof fn lemma_two_writers_same_key(
    s: Seq<(String, SettingsValue)>,
    k1: String,
    v1: SettingsValue,
    k2: String,
    v2: SettingsValue,
)
    requires
        k1@ == k2@,
    ensures
        spec_get(spec_insert(spec_insert(s, k1, v1), k2, v2), k2@) == Some(v2),
        forall|k: Seq<char>|
            k != k2@ ==> spec_get(spec_insert(spec_insert(s, k1, v1), k2, v2), k) == spec_get(
                s,
                k,
            ),
{
    lemma_get_insert(spec_insert(s, k1, v1), k2, v2, k2@);
    assert forall|k: Seq<char>|
        k != k2@ implies spec_get(spec_insert(spec_insert(s, k1, v1), k2, v2), k) == spec_get(
        s,
        k,
    ) by {
        lemma_get_insert(spec_insert(s, k1, v1), k2, v2, k);
        lemma_get_insert(s, k1, v1, k);
    }
}

} // verus!
