//! The configuration exchanged between the host and the sandboxed module: a
//! recursive tagged value and an insertion-ordered map from string keys to
//! values with unique keys.
//!
//! Values are immutable per instance: an update replaces a whole map, never a
//! nested value in place. The map supports the structural-equality check
//! (`is_unchanged`), deep copy for optimistic update attempts, and insert and
//! remove by key.

use vstd::prelude::*;

verus! {

/// A value a setting can hold. Floating-point settings are carried by their
/// raw bit pattern, so that the structural comparison is exact.
pub enum SettingsValue {
    Bool(bool),
    Int(i64),
    FloatBits(u64),
    Text(String),
    List(Vec<SettingsValue>),
    Dict(SettingsMap),
}

/// Ordered mapping from string keys to settings values. Keys are unique and
/// insertion order is preserved.
pub struct SettingsMap {
    entries: Vec<(String, SettingsValue)>,
}

impl View for SettingsMap {
    type V = Seq<(String, SettingsValue)>;

    closed spec fn view(&self) -> Seq<(String, SettingsValue)> {
        self.entries@
    }
}

/// Relies on `<str as PartialEq>::eq`: equal exactly when the two string
/// slices hold the same characters.
#[verifier::external_body]
pub(crate) fn str_eq(a: &str, b: &str) -> (r: bool)
    ensures
        r == (a@ == b@),
{
    a == b
}

/// Whether some entry of `s` carries the key `k`.
pub open spec fn has_key(s: Seq<(String, SettingsValue)>, k: Seq<char>) -> bool
    decreases s.len(),
{
    s.len() > 0 && (s[0].0@ == k || has_key(s.drop_first(), k))
}

/// The value stored under `k`, if any (the first entry with that key).
pub open spec fn spec_get(s: Seq<(String, SettingsValue)>, k: Seq<char>) -> Option<SettingsValue>
    decreases s.len(),
{
    if s.len() == 0 {
        None
    } else if s[0].0@ == k {
        Some(s[0].1)
    } else {
        spec_get(s.drop_first(), k)
    }
}

/// `s` with `v` stored under `key`: the first entry with that key is replaced
/// in place, or the pair is appended when the key is absent.
pub open spec fn spec_insert(
    s: Seq<(String, SettingsValue)>,
    key: String,
    v: SettingsValue,
) -> Seq<(String, SettingsValue)>
    decreases s.len(),
{
    if s.len() == 0 {
        seq![(key, v)]
    } else if s[0].0@ == key@ {
        seq![(key, v)] + s.drop_first()
    } else {
        seq![s[0]] + spec_insert(s.drop_first(), key, v)
    }
}

/// `s` with the first entry carrying `k` removed; the order of the remaining
/// entries is kept.
pub open spec fn spec_remove(s: Seq<(String, SettingsValue)>, k: Seq<char>) -> Seq<
    (String, SettingsValue),
>
    decreases s.len(),
{
    if s.len() == 0 {
        s
    } else if s[0].0@ == k {
        s.drop_first()
    } else {
        seq![s[0]] + spec_remove(s.drop_first(), k)
    }
}

/// No two entries of `s` carry the same key.
pub open spec fn unique_keys(s: Seq<(String, SettingsValue)>) -> bool
    decreases s.len(),
{
    s.len() == 0 || (!has_key(s.drop_first(), s[0].0@) && unique_keys(s.drop_first()))
}

/// Structural equality of two values: same shape and same content, whatever
/// allocations built them.
pub open spec fn value_matches(a: SettingsValue, b: SettingsValue) -> bool
    decreases a,
{
    match (a, b) {
        (SettingsValue::Bool(x), SettingsValue::Bool(y)) => x == y,
        (SettingsValue::Int(x), SettingsValue::Int(y)) => x == y,
        (SettingsValue::FloatBits(x), SettingsValue::FloatBits(y)) => x == y,
        (SettingsValue::Text(x), SettingsValue::Text(y)) => x@ == y@,
        (SettingsValue::List(x), SettingsValue::List(y)) => {
            &&& x@.len() == y@.len()
            &&& forall|i: int|
                0 <= i < x@.len() ==> value_matches(#[trigger] x@[i], y@[i])
        },
        (SettingsValue::Dict(x), SettingsValue::Dict(y)) => {
            &&& x@.len() == y@.len()
            &&& forall|i: int|
                0 <= i < x@.len() ==> (#[trigger] x@[i]).0@ == y@[i].0@ && value_matches(
                    x@[i].1,
                    y@[i].1,
                )
        },
        _ => false,
    }
}

/// Structural equality of two entry sequences: same length, equal keys in the
/// same order, and structurally equal values.
pub open spec fn entries_match_with(
    a: Seq<(String, SettingsValue)>,
    b: Seq<(String, SettingsValue)>,
) -> bool {
    &&& a.len() == b.len()
    &&& forall|i: int|
        0 <= i < a.len() ==> (#[trigger] a[i]).0@ == b[i].0@ && value_matches(a[i].1, b[i].1)
}

/// A list value is larger, in the termination order, than each of its
/// elements.
proof fn lemma_list_elem_decreases(a: SettingsValue, i: int)
    requires
        a is List,
        0 <= i < a->List_0@.len(),
    ensures
        decreases_to!(a => a->List_0@[i]),
{
    assert(decreases_to!(a => a->List_0));
    assert(decreases_to!(a->List_0 => a->List_0@));
    assert(decreases_to!(a->List_0@ => a->List_0@[i]));
}

/// A map value is larger, in the termination order, than each value stored in
/// it.
proof fn lemma_dict_value_decreases(a: SettingsValue, i: int)
    requires
        a is Dict,
        0 <= i < a->Dict_0@.len(),
    ensures
        decreases_to!(a => a->Dict_0@[i].1),
{
    assert(decreases_to!(a => a->Dict_0));
    assert(decreases_to!(a->Dict_0 => a->Dict_0.entries));
    assert(decreases_to!(a->Dict_0.entries => a->Dict_0.entries@));
    assert(decreases_to!(a->Dict_0.entries@ => a->Dict_0.entries@[i]));
    assert(decreases_to!(a->Dict_0.entries@[i] => a->Dict_0.entries@[i].1));
}

/// Structural equality is reflexive.
pub proof fn lemma_value_matches_refl(a: SettingsValue)
    ensures
        value_matches(a, a),
    decreases a,
{
    match a {
        SettingsValue::List(x) => {
            assert forall|i: int| 0 <= i < x@.len() implies value_matches(#[trigger] x@[i], x@[i]) by {
                assert(decreases_to!(x => x@[i]));
                lemma_value_matches_refl(x@[i]);
            }
        },
        SettingsValue::Dict(x) => {
            assert forall|i: int|
                0 <= i < x@.len() implies (#[trigger] x@[i]).0@ == x@[i].0@ && value_matches(
                x@[i].1,
                x@[i].1,
            ) by {
                assert(decreases_to!(x.entries => x.entries@[i]));
                lemma_value_matches_refl(x@[i].1);
            }
        },
        _ => {},
    }
}

/// Structural equality of entry sequences is reflexive.
pub proof fn lemma_entries_match_refl(a: Seq<(String, SettingsValue)>)
    ensures
        entries_match_with(a, a),
{
    assert forall|i: int|
        0 <= i < a.len() implies (#[trigger] a[i]).0@ == a[i].0@ && value_matches(a[i].1, a[i].1) by {
        lemma_value_matches_refl(a[i].1);
    }
}

/// Structural equality is symmetric.
pub proof fn lemma_value_matches_sym(a: SettingsValue, b: SettingsValue)
    requires
        value_matches(a, b),
    ensures
        value_matches(b, a),
    decreases a,
{
    match (a, b) {
        (SettingsValue::List(x), SettingsValue::List(y)) => {
            assert forall|i: int| 0 <= i < y@.len() implies value_matches(#[trigger] y@[i], x@[i]) by {
                assert(decreases_to!(x => x@[i]));
                assert(value_matches(x@[i], y@[i]));
                lemma_value_matches_sym(x@[i], y@[i]);
            }
        },
        (SettingsValue::Dict(x), SettingsValue::Dict(y)) => {
            assert forall|i: int|
                0 <= i < y@.len() implies (#[trigger] y@[i]).0@ == x@[i].0@ && value_matches(
                y@[i].1,
                x@[i].1,
            ) by {
                assert(decreases_to!(x.entries => x.entries@[i]));
                assert(x@[i].0@ == y@[i].0@ && value_matches(x@[i].1, y@[i].1));
                lemma_value_matches_sym(x@[i].1, y@[i].1);
            }
        },
        _ => {},
    }
}

/// Structural equality of entry sequences is symmetric.
pub proof fn lemma_entries_match_sym(a: Seq<(String, SettingsValue)>, b: Seq<(String, SettingsValue)>)
    requires
        entries_match_with(a, b),
    ensures
        entries_match_with(b, a),
{
    assert forall|i: int|
        0 <= i < b.len() implies (#[trigger] b[i]).0@ == a[i].0@ && value_matches(b[i].1, a[i].1) by {
        assert(a[i].0@ == b[i].0@ && value_matches(a[i].1, b[i].1));
        lemma_value_matches_sym(a[i].1, b[i].1);
    }
}

/// Structural equality of two values, decided in executable code.
pub fn value_unchanged(a: &SettingsValue, b: &SettingsValue) -> (r: bool)
    ensures
        r == value_matches(*a, *b),
    decreases *a, 1nat,
{
    match (a, b) {
        (SettingsValue::Bool(x), SettingsValue::Bool(y)) => *x == *y,
        (SettingsValue::Int(x), SettingsValue::Int(y)) => *x == *y,
        (SettingsValue::FloatBits(x), SettingsValue::FloatBits(y)) => *x == *y,
        (SettingsValue::Text(x), SettingsValue::Text(y)) => str_eq(x.as_str(), y.as_str()),
        (SettingsValue::List(x), SettingsValue::List(y)) => {
            if x.len() != y.len() {
                return false;
            }
            let mut i: usize = 0;
            while i < x.len()
                invariant
                    i <= x@.len(),
                    x@.len() == y@.len(),
                    *a == SettingsValue::List(*x),
                    *b == SettingsValue::List(*y),
                    forall|j: int| 0 <= j < i ==> value_matches(#[trigger] x@[j], y@[j]),
                decreases x@.len() - i,
            {
                proof {
                    lemma_list_elem_decreases(*a, i as int);
                }
                if !value_unchanged(&x[i], &y[i]) {
                    return false;
                }
                i = i + 1;
            }
            true
        },
        (SettingsValue::Dict(x), SettingsValue::Dict(y)) => map_unchanged_from(a, x, y),
        _ => false,
    }
}

/// Helper for the map arm of `value_unchanged`; `outer` is the enclosing
/// value, kept only to justify termination.
fn map_unchanged_from(outer: &SettingsValue, x: &SettingsMap, y: &SettingsMap) -> (r: bool)
    requires
        *outer == SettingsValue::Dict(*x),
    ensures
        r == entries_match_with(x@, y@),
    decreases *outer,
        0nat,
{
    if x.len() != y.len() {
        return false;
    }
    let mut i: usize = 0;
    while i < x.len()
        invariant
            i <= x@.len(),
            x@.len() == y@.len(),
            *outer == SettingsValue::Dict(*x),
            forall|j: int|
                0 <= j < i ==> (#[trigger] x@[j]).0@ == y@[j].0@ && value_matches(x@[j].1, y@[j].1),
        decreases x@.len() - i,
    {
        let (xk, xv) = x.entry_at(i);
        let (yk, yv) = y.entry_at(i);
        if !str_eq(xk.as_str(), yk.as_str()) {
            return false;
        }
        proof {
            lemma_dict_value_decreases(*outer, i as int);
        }
        if !value_unchanged(xv, yv) {
            return false;
        }
        i = i + 1;
    }
    true
}

impl SettingsValue {
    /// A deep copy whose content structurally equals `self`.
    pub fn duplicate(&self) -> (r: SettingsValue)
        ensures
            value_matches(r, *self),
            value_matches(*self, r),
        decreases *self, 1nat,
    {
        match self {
            SettingsValue::Bool(x) => SettingsValue::Bool(*x),
            SettingsValue::Int(x) => SettingsValue::Int(*x),
            SettingsValue::FloatBits(x) => SettingsValue::FloatBits(*x),
            SettingsValue::Text(x) => SettingsValue::Text(x.clone()),
            SettingsValue::List(x) => {
                let mut out: Vec<SettingsValue> = Vec::new();
                let mut i: usize = 0;
                while i < x.len()
                    invariant
                        i <= x@.len(),
                        out@.len() == i,
                        *self == SettingsValue::List(*x),
                        forall|j: int|
                            0 <= j < i ==> value_matches(#[trigger] out@[j], x@[j]) && value_matches(
                                x@[j],
                                out@[j],
                            ),
                    decreases x@.len() - i,
                {
                    proof {
                        lemma_list_elem_decreases(*self, i as int);
                    }
                    let d = x[i].duplicate();
                    out.push(d);
                    i = i + 1;
                }
                SettingsValue::List(out)
            },
            SettingsValue::Dict(x) => {
                let d = dup_map_from(self, x);
                SettingsValue::Dict(d)
            },
        }
    }
}

/// Helper for the map arm of `SettingsValue::duplicate`; `outer` is the
/// enclosing value, kept only to justify termination.
fn dup_map_from(outer: &SettingsValue, x: &SettingsMap) -> (r: SettingsMap)
    requires
        *outer == SettingsValue::Dict(*x),
    ensures
        entries_match_with(r@, x@),
        entries_match_with(x@, r@),
        r@.len() == x@.len(),
        forall|j: int| 0 <= j < x@.len() ==> (#[trigger] r@[j]).0 == x@[j].0,
    decreases *outer, 0nat,
{
    let mut out: Vec<(String, SettingsValue)> = Vec::new();
    let mut i: usize = 0;
    while i < x.len()
        invariant
            i <= x@.len(),
            out@.len() == i,
            *outer == SettingsValue::Dict(*x),
            forall|j: int| 0 <= j < i ==> (#[trigger] out@[j]).0 == x@[j].0,
            forall|j: int|
                0 <= j < i ==> value_matches((#[trigger] out@[j]).1, x@[j].1) && value_matches(
                    x@[j].1,
                    out@[j].1,
                ),
        decreases x@.len() - i,
    {
        let (k, v) = x.entry_at(i);
        let dk = k.clone();
        proof {
            lemma_dict_value_decreases(*outer, i as int);
        }
        let dv = v.duplicate();
        out.push((dk, dv));
        i = i + 1;
    }
    SettingsMap { entries: out }
}

impl SettingsMap {
    /// The map's validity: no two entries carry the same key.
    pub open spec fn wf(&self) -> bool {
        unique_keys(self@)
    }

    pub fn new() -> (r: Self)
        ensures
            r@ == Seq::<(String, SettingsValue)>::empty(),
            r.wf(),
    {
        SettingsMap { entries: Vec::new() }
    }

    pub fn len(&self) -> (r: usize)
        ensures
            r == self@.len(),
    {
        self.entries.len()
    }

    pub fn is_empty(&self) -> (r: bool)
        ensures
            r == (self@.len() == 0),
    {
        self.entries.is_empty()
    }

    /// Read access to the entry at position `i`, for display and iteration.
    pub fn entry_at(&self, i: usize) -> (r: &(String, SettingsValue))
        requires
            i < self@.len(),
        ensures
            *r == self@[i as int],
    {
        &self.entries[i]
    }

    /// The value stored under `key`, if any.
    pub fn get(&self, key: &str) -> (r: Option<&SettingsValue>)
        ensures
            match r {
                Some(v) => spec_get(self@, key@) == Some(*v),
                None => spec_get(self@, key@) is None,
            },
    {
        let mut i: usize = 0;
        while i < self.entries.len()
            invariant
                i <= self@.len(),
                forall|j: int| 0 <= j < i ==> (#[trigger] self@[j]).0@ != key@,
            decreases self@.len() - i,
        {
            if str_eq(self.entries[i].0.as_str(), key) {
                proof {
                    lemma_get_at_first_hit(self@, key@, i as int);
                }
                return Some(&self.entries[i].1);
            }
            i = i + 1;
        }
        proof {
            lemma_no_hit_means_absent(self@, key@);
        }
        None
    }

    /// Stores `value` under `key`: replaces the first entry with that key in
    /// place, or appends the pair when the key is absent. Keeps the map
    /// well-formed.
    pub fn insert(&mut self, key: String, value: SettingsValue)
        requires
            old(self).wf(),
        ensures
            final(self)@ == spec_insert(old(self)@, key, value),
            final(self).wf(),
    {
        let mut i: usize = 0;
        while i < self.entries.len()
            invariant
                i <= self@.len(),
                *self == *old(self),
                old(self).wf(),
                forall|j: int| 0 <= j < i ==> (#[trigger] self@[j]).0@ != key@,
            decreases self@.len() - i,
        {
            if str_eq(self.entries[i].0.as_str(), key.as_str()) {
                proof {
                    lemma_insert_unique(self@, key, value);
                    lemma_insert_at_first_hit(self@, key, value, i as int);
                }
                self.entries.set(i, (key, value));
                return ;
            }
            i = i + 1;
        }
        proof {
            lemma_insert_unique(self@, key, value);
            lemma_insert_absent(self@, key, value);
        }
        self.entries.push((key, value));
    }

    /// Removes the entry carrying `key`, if any; the order of the remaining
    /// entries is kept.
    pub fn remove(&mut self, key: &str)
        requires
            old(self).wf(),
        ensures
            final(self)@ == spec_remove(old(self)@, key@),
            final(self).wf(),
    {
        let mut i: usize = 0;
        while i < self.entries.len()
            invariant
                i <= self@.len(),
                *self == *old(self),
                old(self).wf(),
                forall|j: int| 0 <= j < i ==> (#[trigger] self@[j]).0@ != key@,
            decreases self@.len() - i,
        {
            if str_eq(self.entries[i].0.as_str(), key) {
                proof {
                    lemma_remove_unique(self@, key@);
                    lemma_remove_at_first_hit(self@, key@, i as int);
                }
                self.entries.remove(i);
                return ;
            }
            i = i + 1;
        }
        proof {
            lemma_remove_unique(self@, key@);
            lemma_no_hit_means_absent(self@, key@);
            lemma_remove_absent(self@, key@);
        }
    }

    /// The structural-equality check: true exactly when `self` and `other`
    /// hold the same keys in the same order with structurally equal values,
    /// whatever allocations built the two maps.
    pub fn is_unchanged(&self, other: &SettingsMap) -> (r: bool)
        ensures
            r == entries_match_with(self@, other@),
    {
        if self.entries.len() != other.entries.len() {
            return false;
        }
        let mut i: usize = 0;
        while i < self.entries.len()
            invariant
                i <= self@.len(),
                self@.len() == other@.len(),
                forall|j: int|
                    0 <= j < i ==> (#[trigger] self@[j]).0@ == other@[j].0@ && value_matches(
                        self@[j].1,
                        other@[j].1,
                    ),
            decreases self@.len() - i,
        {
            if !str_eq(self.entries[i].0.as_str(), other.entries[i].0.as_str()) {
                return false;
            }
            if !value_unchanged(&self.entries[i].1, &other.entries[i].1) {
                return false;
            }
            i = i + 1;
        }
        true
    }

    /// A deep copy: same keys in the same order, structurally equal values,
    /// well-formed whenever `self` is.
    pub fn duplicate(&self) -> (r: SettingsMap)
        ensures
            entries_match_with(r@, self@),
            entries_match_with(self@, r@),
            r@.len() == self@.len(),
            forall|j: int| 0 <= j < self@.len() ==> (#[trigger] r@[j]).0 == self@[j].0,
            self.wf() ==> r.wf(),
    {
        let mut out: Vec<(String, SettingsValue)> = Vec::new();
        let mut i: usize = 0;
        while i < self.entries.len()
            invariant
                i <= self@.len(),
                out@.len() == i,
                forall|j: int| 0 <= j < i ==> (#[trigger] out@[j]).0 == self@[j].0,
                forall|j: int|
                    0 <= j < i ==> value_matches((#[trigger] out@[j]).1, self@[j].1)
                        && value_matches(self@[j].1, out@[j].1),
            decreases self@.len() - i,
        {
            let k = self.entries[i].0.clone();
            let v = self.entries[i].1.duplicate();
            out.push((k, v));
            i = i + 1;
        }
        let r = SettingsMap { entries: out };
        proof {
            if self.wf() {
                lemma_same_keys_same_unique(self@, r@);
            }
        }
        r
    }
}

/// `has_key` holds exactly when some position carries the key.
pub proof fn lemma_has_key_index(s: Seq<(String, SettingsValue)>, k: Seq<char>)
    ensures
        has_key(s, k) <==> exists|i: int| 0 <= i < s.len() && (#[trigger] s[i]).0@ == k,
    decreases s.len(),
{
    if s.len() > 0 {
        lemma_has_key_index(s.drop_first(), k);
        if s[0].0@ == k {
        } else if has_key(s.drop_first(), k) {
            let i = choose|i: int| 0 <= i < s.drop_first().len() && (#[trigger] s.drop_first()[i]).0@ == k;
            assert(s[i + 1].0@ == k);
        } else {
            assert forall|i: int| 0 <= i < s.len() implies (#[trigger] s[i]).0@ != k by {
                if i > 0 {
                    assert(s.drop_first()[i - 1] == s[i]);
                }
            }
        }
    }
}

/// If no position carries the key, the key is absent.
pub proof fn lemma_no_hit_means_absent(s: Seq<(String, SettingsValue)>, k: Seq<char>)
    requires
        forall|j: int| 0 <= j < s.len() ==> (#[trigger] s[j]).0@ != k,
    ensures
        !has_key(s, k),
        spec_get(s, k) is None,
    decreases s.len(),
{
    if s.len() > 0 {
        assert forall|j: int| 0 <= j < s.drop_first().len() implies (#[trigger] s.drop_first()[j]).0@
            != k by {
            assert(s.drop_first()[j] == s[j + 1]);
        }
        lemma_no_hit_means_absent(s.drop_first(), k);
    }
}

/// The value found at the first position carrying the key is what `spec_get`
/// returns.
pub proof fn lemma_get_at_first_hit(s: Seq<(String, SettingsValue)>, k: Seq<char>, i: int)
    requires
        0 <= i < s.len(),
        s[i].0@ == k,
        forall|j: int| 0 <= j < i ==> (#[trigger] s[j]).0@ != k,
    ensures
        spec_get(s, k) == Some(s[i].1),
        has_key(s, k),
    decreases i,
{
    if i > 0 {
        assert forall|j: int| 0 <= j < i - 1 implies (#[trigger] s.drop_first()[j]).0@ != k by {
            assert(s.drop_first()[j] == s[j + 1]);
        }
        assert(s.drop_first()[i - 1] == s[i]);
        lemma_get_at_first_hit(s.drop_first(), k, i - 1);
    }
}

/// Replacing the entry at the first position carrying the key is what
/// `spec_insert` does.
pub proof fn lemma_insert_at_first_hit(
    s: Seq<(String, SettingsValue)>,
    key: String,
    v: SettingsValue,
    i: int,
)
    requires
        0 <= i < s.len(),
        s[i].0@ == key@,
        forall|j: int| 0 <= j < i ==> (#[trigger] s[j]).0@ != key@,
    ensures
        spec_insert(s, key, v) =~= s.update(i, (key, v)),
    decreases i,
{
    if i == 0 {
        assert(spec_insert(s, key, v) == seq![(key, v)] + s.drop_first());
        assert(seq![(key, v)] + s.drop_first() =~= s.update(0, (key, v)));
    } else {
        assert forall|j: int| 0 <= j < i - 1 implies (#[trigger] s.drop_first()[j]).0@ != key@ by {
            assert(s.drop_first()[j] == s[j + 1]);
        }
        assert(s.drop_first()[i - 1] == s[i]);
        lemma_insert_at_first_hit(s.drop_first(), key, v, i - 1);
        assert(spec_insert(s, key, v) == seq![s[0]] + spec_insert(s.drop_first(), key, v));
        assert(seq![s[0]] + s.drop_first().update(i - 1, (key, v)) =~= s.update(i, (key, v)));
    }
}

/// Inserting an absent key appends the pair.
pub proof fn lemma_insert_absent(s: Seq<(String, SettingsValue)>, key: String, v: SettingsValue)
    requires
        forall|j: int| 0 <= j < s.len() ==> (#[trigger] s[j]).0@ != key@,
    ensures
        spec_insert(s, key, v) =~= s.push((key, v)),
    decreases s.len(),
{
    if s.len() > 0 {
        assert forall|j: int| 0 <= j < s.drop_first().len() implies (#[trigger] s.drop_first()[j]).0@
            != key@ by {
            assert(s.drop_first()[j] == s[j + 1]);
        }
        lemma_insert_absent(s.drop_first(), key, v);
        assert(seq![s[0]] + s.drop_first().push((key, v)) =~= s.push((key, v)));
    }
}

/// Removing at the first position carrying the key is what `spec_remove`
/// does.
pub proof fn lemma_remove_at_first_hit(s: Seq<(String, SettingsValue)>, k: Seq<char>, i: int)
    requires
        0 <= i < s.len(),
        s[i].0@ == k,
        forall|j: int| 0 <= j < i ==> (#[trigger] s[j]).0@ != k,
    ensures
        spec_remove(s, k) =~= s.remove(i),
    decreases i,
{
    if i == 0 {
        assert(s.drop_first() =~= s.remove(0));
    } else {
        assert forall|j: int| 0 <= j < i - 1 implies (#[trigger] s.drop_first()[j]).0@ != k by {
            assert(s.drop_first()[j] == s[j + 1]);
        }
        assert(s.drop_first()[i - 1] == s[i]);
        lemma_remove_at_first_hit(s.drop_first(), k, i - 1);
        assert(seq![s[0]] + s.drop_first().remove(i - 1) =~= s.remove(i));
    }
}

/// Removing an absent key leaves the sequence as it is.
pub proof fn lemma_remove_absent(s: Seq<(String, SettingsValue)>, k: Seq<char>)
    requires
        !has_key(s, k),
    ensures
        spec_remove(s, k) =~= s,
    decreases s.len(),
{
    if s.len() > 0 {
        lemma_remove_absent(s.drop_first(), k);
        assert(seq![s[0]] + s.drop_first() =~= s);
    }
}

/// What `has_key` holds of an inserted sequence.
pub proof fn lemma_has_key_insert(
    s: Seq<(String, SettingsValue)>,
    key: String,
    v: SettingsValue,
    k: Seq<char>,
)
    ensures
        has_key(spec_insert(s, key, v), k) <==> (k == key@ || has_key(s, k)),
    decreases s.len(),
{
    if s.len() == 0 {
        assert(spec_insert(s, key, v) == seq![(key, v)]);
        assert(spec_insert(s, key, v).drop_first() =~= Seq::<(String, SettingsValue)>::empty());
        assert(!has_key(Seq::<(String, SettingsValue)>::empty(), k));
        assert(!has_key(s, k));
    } else if s[0].0@ == key@ {
        let t = seq![(key, v)] + s.drop_first();
        assert(spec_insert(s, key, v) == t);
        assert(t.drop_first() =~= s.drop_first());
        lemma_has_key_index(s, k);
        lemma_has_key_index(s.drop_first(), k);
        if has_key(s, k) && k != key@ {
            let i = choose|i: int| 0 <= i < s.len() && (#[trigger] s[i]).0@ == k;
            assert(i > 0);
            assert(s.drop_first()[i - 1] == s[i]);
        }
    } else {
        let t = seq![s[0]] + spec_insert(s.drop_first(), key, v);
        assert(spec_insert(s, key, v) == t);
        assert(t.drop_first() =~= spec_insert(s.drop_first(), key, v));
        lemma_has_key_insert(s.drop_first(), key, v, k);
        lemma_has_key_index(s, k);
        lemma_has_key_index(s.drop_first(), k);
        if has_key(s, k) && s[0].0@ != k {
            let i = choose|i: int| 0 <= i < s.len() && (#[trigger] s[i]).0@ == k;
            assert(i > 0);
            assert(s.drop_first()[i - 1] == s[i]);
        }
    }
}

/// Inserting keeps the keys unique.
pub proof fn lemma_insert_unique(s: Seq<(String, SettingsValue)>, key: String, v: SettingsValue)
    requires
        unique_keys(s),
    ensures
        unique_keys(spec_insert(s, key, v)),
    decreases s.len(),
{
    if s.len() == 0 {
        let t = spec_insert(s, key, v);
        assert(t == seq![(key, v)]);
        assert(t.drop_first() =~= Seq::<(String, SettingsValue)>::empty());
        assert(!has_key(Seq::<(String, SettingsValue)>::empty(), key@));
        assert(unique_keys(Seq::<(String, SettingsValue)>::empty()));
    } else if s[0].0@ == key@ {
        let t = seq![(key, v)] + s.drop_first();
        assert(spec_insert(s, key, v) == t);
        assert(t.drop_first() =~= s.drop_first());
        assert(t[0].0@ == s[0].0@);
    } else {
        let t = seq![s[0]] + spec_insert(s.drop_first(), key, v);
        assert(spec_insert(s, key, v) == t);
        assert(t.drop_first() =~= spec_insert(s.drop_first(), key, v));
        lemma_insert_unique(s.drop_first(), key, v);
        lemma_has_key_insert(s.drop_first(), key, v, s[0].0@);
    }
}

/// Removing keeps the keys unique.
pub proof fn lemma_remove_unique(s: Seq<(String, SettingsValue)>, k: Seq<char>)
    requires
        unique_keys(s),
    ensures
        unique_keys(spec_remove(s, k)),
    decreases s.len(),
{
    if s.len() > 0 {
        if s[0].0@ == k {
        } else {
            let t = seq![s[0]] + spec_remove(s.drop_first(), k);
            assert(spec_remove(s, k) == t);
            assert(t.drop_first() =~= spec_remove(s.drop_first(), k));
            lemma_remove_unique(s.drop_first(), k);
            lemma_has_key_remove(s.drop_first(), k, s[0].0@);
        }
    }
}

/// A removed sequence carries a key only where the original did.
pub proof fn lemma_has_key_remove(s: Seq<(String, SettingsValue)>, k: Seq<char>, k2: Seq<char>)
    ensures
        has_key(spec_remove(s, k), k2) ==> has_key(s, k2),
    decreases s.len(),
{
    if s.len() > 0 {
        if s[0].0@ == k {
            lemma_has_key_index(s, k2);
            lemma_has_key_index(s.drop_first(), k2);
            if has_key(s.drop_first(), k2) {
                let i = choose|i: int|
                    0 <= i < s.drop_first().len() && (#[trigger] s.drop_first()[i]).0@ == k2;
                assert(s[i + 1].0@ == k2);
            }
        } else {
            let t = seq![s[0]] + spec_remove(s.drop_first(), k);
            assert(spec_remove(s, k) == t);
            assert(t.drop_first() =~= spec_remove(s.drop_first(), k));
            lemma_has_key_remove(s.drop_first(), k, k2);
            lemma_has_key_index(s, k2);
            lemma_has_key_index(s.drop_first(), k2);
            if has_key(spec_remove(s, k), k2) && t[0].0@ != k2 {
                assert(has_key(t.drop_first(), k2));
                if has_key(s.drop_first(), k2) {
                    let i = choose|i: int|
                        0 <= i < s.drop_first().len() && (#[trigger] s.drop_first()[i]).0@ == k2;
                    assert(s[i + 1].0@ == k2);
                }
            }
        }
    }
}

/// Two sequences with the same keys in the same order are unique together.
pub proof fn lemma_same_keys_same_unique(
    a: Seq<(String, SettingsValue)>,
    b: Seq<(String, SettingsValue)>,
)
    requires
        unique_keys(a),
        a.len() == b.len(),
        forall|j: int| 0 <= j < a.len() ==> (#[trigger] b[j]).0 == a[j].0,
    ensures
        unique_keys(b),
    decreases a.len(),
{
    if a.len() > 0 {
        assert forall|j: int| 0 <= j < a.drop_first().len() implies (#[trigger] b.drop_first()[j]).0
            == a.drop_first()[j].0 by {
            assert(b.drop_first()[j] == b[j + 1]);
            assert(a.drop_first()[j] == a[j + 1]);
        }
        lemma_same_keys_same_unique(a.drop_first(), b.drop_first());
        lemma_has_key_index(a.drop_first(), a[0].0@);
        lemma_has_key_index(b.drop_first(), b[0].0@);
        if has_key(b.drop_first(), b[0].0@) {
            let i = choose|i: int|
                0 <= i < b.drop_first().len() && (#[trigger] b.drop_first()[i]).0@ == b[0].0@;
            assert(a.drop_first()[i].0 == b.drop_first()[i].0);
            assert(has_key(a.drop_first(), a[0].0@));
        }
    }
}

/// What `spec_get` returns after an insert: the inserted value under the
/// inserted key, and the old answer under every other key. Nothing else
/// changes, so no update is silently lost.
pub proof fn lemma_get_insert(
    s: Seq<(String, SettingsValue)>,
    key: String,
    v: SettingsValue,
    k: Seq<char>,
)
    ensures
        spec_get(spec_insert(s, key, v), k) == if k == key@ {
            Some(v)
        } else {
            spec_get(s, k)
        },
    decreases s.len(),
{
    if s.len() == 0 {
        let t = spec_insert(s, key, v);
        assert(t == seq![(key, v)]);
        assert(t.drop_first() =~= Seq::<(String, SettingsValue)>::empty());
    } else if s[0].0@ == key@ {
        let t = seq![(key, v)] + s.drop_first();
        assert(spec_insert(s, key, v) == t);
        assert(t.drop_first() =~= s.drop_first());
    } else {
        let t = seq![s[0]] + spec_insert(s.drop_first(), key, v);
        assert(spec_insert(s, key, v) == t);
        assert(t.drop_first() =~= spec_insert(s.drop_first(), key, v));
        lemma_get_insert(s.drop_first(), key, v, k);
    }
}

/// Matching heads and matching tails: structural equality restricted to the
/// tails of two matching sequences.
pub proof fn lemma_entries_match_drop_first(
    a: Seq<(String, SettingsValue)>,
    b: Seq<(String, SettingsValue)>,
)
    requires
        entries_match_with(a, b),
        a.len() > 0,
    ensures
        entries_match_with(a.drop_first(), b.drop_first()),
{
    assert forall|i: int|
        0 <= i < a.drop_first().len() implies (#[trigger] a.drop_first()[i]).0@
        == b.drop_first()[i].0@ && value_matches(a.drop_first()[i].1, b.drop_first()[i].1) by {
        assert(a.drop_first()[i] == a[i + 1]);
        assert(b.drop_first()[i] == b[i + 1]);
        assert(a[i + 1].0@ == b[i + 1].0@ && value_matches(a[i + 1].1, b[i + 1].1));
    }
}

/// Inserting the same key and value into two structurally equal sequences
/// yields structurally equal sequences.
pub proof fn lemma_insert_congruence(
    a: Seq<(String, SettingsValue)>,
    b: Seq<(String, SettingsValue)>,
    key: String,
    v: SettingsValue,
)
    requires
        entries_match_with(a, b),
    ensures
        entries_match_with(spec_insert(a, key, v), spec_insert(b, key, v)),
    decreases a.len(),
{
    lemma_value_matches_refl(v);
    if a.len() == 0 {
        let ta = spec_insert(a, key, v);
        let tb = spec_insert(b, key, v);
        assert(ta == seq![(key, v)] && tb == seq![(key, v)]);
        lemma_entries_match_refl(ta);
    } else {
        assert(a[0].0@ == b[0].0@ && value_matches(a[0].1, b[0].1));
        lemma_entries_match_drop_first(a, b);
        if a[0].0@ == key@ {
            let ta = seq![(key, v)] + a.drop_first();
            let tb = seq![(key, v)] + b.drop_first();
            assert(spec_insert(a, key, v) == ta);
            assert(spec_insert(b, key, v) == tb);
            assert forall|i: int|
                0 <= i < ta.len() implies (#[trigger] ta[i]).0@ == tb[i].0@ && value_matches(
                ta[i].1,
                tb[i].1,
            ) by {
                if i > 0 {
                    assert(ta[i] == a.drop_first()[i - 1]);
                    assert(tb[i] == b.drop_first()[i - 1]);
                    assert(a.drop_first()[i - 1].0@ == b.drop_first()[i - 1].0@ && value_matches(
                        a.drop_first()[i - 1].1,
                        b.drop_first()[i - 1].1,
                    ));
                }
            }
        } else {
            lemma_insert_congruence(a.drop_first(), b.drop_first(), key, v);
            let ta = seq![a[0]] + spec_insert(a.drop_first(), key, v);
            let tb = seq![b[0]] + spec_insert(b.drop_first(), key, v);
            assert(spec_insert(a, key, v) == ta);
            assert(spec_insert(b, key, v) == tb);
            assert forall|i: int|
                0 <= i < ta.len() implies (#[trigger] ta[i]).0@ == tb[i].0@ && value_matches(
                ta[i].1,
                tb[i].1,
            ) by {
                if i > 0 {
                    assert(ta[i] == spec_insert(a.drop_first(), key, v)[i - 1]);
                    assert(tb[i] == spec_insert(b.drop_first(), key, v)[i - 1]);
                    assert(spec_insert(a.drop_first(), key, v)[i - 1].0@ == spec_insert(
                        b.drop_first(),
                        key,
                        v,
                    )[i - 1].0@ && value_matches(
                        spec_insert(a.drop_first(), key, v)[i - 1].1,
                        spec_insert(b.drop_first(), key, v)[i - 1].1,
                    ));
                }
            }
        }
    }
}

/// Removing the same key from two structurally equal sequences yields
/// structurally equal sequences.
pub proof fn lemma_remove_congruence(
    a: Seq<(String, SettingsValue)>,
    b: Seq<(String, SettingsValue)>,
    k: Seq<char>,
)
    requires
        entries_match_with(a, b),
    ensures
        entries_match_with(spec_remove(a, k), spec_remove(b, k)),
    decreases a.len(),
{
    if a.len() == 0 {
    } else {
        assert(a[0].0@ == b[0].0@ && value_matches(a[0].1, b[0].1));
        lemma_entries_match_drop_first(a, b);
        if a[0].0@ == k {
        } else {
            lemma_remove_congruence(a.drop_first(), b.drop_first(), k);
            let ta = seq![a[0]] + spec_remove(a.drop_first(), k);
            let tb = seq![b[0]] + spec_remove(b.drop_first(), k);
            assert(spec_remove(a, k) == ta);
            assert(spec_remove(b, k) == tb);
            assert forall|i: int|
                0 <= i < ta.len() implies (#[trigger] ta[i]).0@ == tb[i].0@ && value_matches(
                ta[i].1,
                tb[i].1,
            ) by {
                if i > 0 {
                    assert(ta[i] == spec_remove(a.drop_first(), k)[i - 1]);
                    assert(tb[i] == spec_remove(b.drop_first(), k)[i - 1]);
                    assert(spec_remove(a.drop_first(), k)[i - 1].0@ == spec_remove(
                        b.drop_first(),
                        k,
                    )[i - 1].0@ && value_matches(
                        spec_remove(a.drop_first(), k)[i - 1].1,
                        spec_remove(b.drop_first(), k)[i - 1].1,
                    ));
                }
            }
        }
    }
}

} // verus!
