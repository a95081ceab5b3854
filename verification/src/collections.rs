//! Sets of texts and maps keyed by texts, kept in the order of the texts.
use vstd::prelude::*;

use crate::text::{str_eq, text_before, text_before_irreflexive, text_before_total,
    text_before_transitive, text_lt, texts};

verus! {

/// Each text comes strictly before the next ones.
pub open spec fn ascending(s: Seq<Seq<char>>) -> bool {
    forall|i: int, j: int| #![trigger s[i], s[j]] 0 <= i < j < s.len() ==> text_before(s[i], s[j])
}

/// An ascending sequence holds no text twice.
pub proof fn ascending_no_duplicates(s: Seq<Seq<char>>)
    requires
        ascending(s),
    ensures
        s.no_duplicates(),
{
    assert forall|i: int, j: int| 0 <= i < s.len() && 0 <= j < s.len() && i != j implies s[i]
        != s[j] by {
        text_before_irreflexive(s[i]);
        if i < j {
            assert(text_before(s[i], s[j]));
        } else {
            assert(text_before(s[j], s[i]));
        }
    }
}

/// A set of texts has one ascending listing.
pub proof fn ascending_unique(a: Seq<Seq<char>>, b: Seq<Seq<char>>)
    requires
        ascending(a),
        ascending(b),
        a.to_set() == b.to_set(),
    ensures
        a == b,
    decreases a.len(),
{
    ascending_no_duplicates(a);
    ascending_no_duplicates(b);
    a.unique_seq_to_set();
    b.unique_seq_to_set();
    if a.len() > 0 {
        let x = a.last();
        let y = b.last();
        assert(a.to_set().contains(x) && b.to_set().contains(y));
        assert(b.contains(x) && a.contains(y));
        let i = b.index_of(x);
        let j = a.index_of(y);
        if x != y {
            assert(text_before(b[i], b[b.len() - 1]));
            assert(text_before(a[j], a[a.len() - 1]));
            text_before_transitive(x, y, x);
            text_before_irreflexive(x);
        }
        let a1 = a.drop_last();
        let b1 = b.drop_last();
        assert(a1.to_set() =~= b1.to_set()) by {
            assert forall|t: Seq<char>| a1.to_set().contains(t) <==> b1.to_set().contains(t) by {
                if a1.contains(t) {
                    let k = a1.index_of(t);
                    assert(a[k] == t && t != x);
                    assert(a.to_set().contains(t));
                    assert(b.contains(t));
                    let l = b.index_of(t);
                    assert(b1[l] == t);
                }
                if b1.contains(t) {
                    let k = b1.index_of(t);
                    assert(b[k] == t && t != y);
                    assert(b.to_set().contains(t));
                    assert(a.contains(t));
                    let l = a.index_of(t);
                    assert(a1[l] == t);
                }
            }
        }
        ascending_unique(a1, b1);
        assert(a =~= a1.push(x));
        assert(b =~= b1.push(y));
    } else {
        assert(a =~= b);
    }
}

/// A set of texts.
#[derive(Debug, PartialEq, Eq, Default)]
pub struct TextSet {
    items: Vec<String>,
}

impl TextSet {
    #[verifier::type_invariant]
    closed spec fn inv(&self) -> bool {
        ascending(self.listed())
    }

    /// The members in ascending order.
    pub closed spec fn listed(&self) -> Seq<Seq<char>> {
        texts(self.items@)
    }

    /// The members.
    pub open spec fn view(&self) -> Set<Seq<char>> {
        self.listed().to_set()
    }

    pub fn new() -> (r: Self)
        ensures
            r.listed() == Seq::<Seq<char>>::empty(),
            r@ == Set::<Seq<char>>::empty(),
    {
        let r = TextSet { items: Vec::new() };
        proof {
            assert(r.listed() =~= Seq::<Seq<char>>::empty());
            assert(r@ =~= Set::<Seq<char>>::empty());
        }
        r
    }

    pub fn len(&self) -> (n: usize)
        ensures
            n == self.listed().len(),
            n == self@.len(),
            ascending(self.listed()),
    {
        proof {
            use_type_invariant(self);
            ascending_no_duplicates(self.listed());
            self.listed().unique_seq_to_set();
        }
        self.items.len()
    }

    /// The member at place `i` of the ascending order.
    pub fn at(&self, i: usize) -> (r: &String)
        requires
            i < self.listed().len(),
        ensures
            r@ == self.listed()[i as int],
            self@.contains(r@),
    {
        proof {
            assert(self.listed().contains(self.listed()[i as int]));
        }
        &self.items[i]
    }

    /// The first place whose member does not come before `key`.
    fn place(&self, key: &str) -> (k: usize)
        ensures
            k <= self.listed().len(),
            forall|i: int| 0 <= i < k ==> text_before(#[trigger] self.listed()[i], key@),
            forall|i: int|
                k <= i < self.listed().len() ==> !text_before(#[trigger] self.listed()[i], key@),
    {
        proof {
            use_type_invariant(self);
        }
        let mut lo: usize = 0;
        let mut hi: usize = self.items.len();
        while lo < hi
            invariant
                lo <= hi <= self.listed().len(),
                self.listed() == texts(self.items@),
                ascending(self.listed()),
                forall|i: int| 0 <= i < lo ==> text_before(#[trigger] self.listed()[i], key@),
                forall|i: int|
                    hi <= i < self.listed().len() ==> !text_before(
                        #[trigger] self.listed()[i],
                        key@,
                    ),
            decreases hi - lo,
        {
            let mid: usize = lo + (hi - lo) / 2;
            if text_lt(self.items[mid].as_str(), key) {
                proof {
                    assert forall|i: int| 0 <= i < mid + 1 implies text_before(
                        #[trigger] self.listed()[i],
                        key@,
                    ) by {
                        if i < mid {
                            text_before_transitive(
                                self.listed()[i],
                                self.listed()[mid as int],
                                key@,
                            );
                        }
                    }
                }
                lo = mid + 1;
            } else {
                proof {
                    assert forall|i: int| mid <= i < self.listed().len() implies !text_before(
                        #[trigger] self.listed()[i],
                        key@,
                    ) by {
                        if i > mid && text_before(self.listed()[i], key@) {
                            text_before_transitive(
                                self.listed()[mid as int],
                                self.listed()[i],
                                key@,
                            );
                        }
                    }
                }
                hi = mid;
            }
        }
        lo
    }

    pub fn contains(&self, key: &str) -> (r: bool)
        ensures
            r == self@.contains(key@),
    {
        let k = self.place(key);
        proof {
            use_type_invariant(self);
            if self@.contains(key@) {
                let i = self.listed().index_of(key@);
                text_before_irreflexive(key@);
                assert(i >= k);
                if i > k {
                    assert(text_before(self.listed()[k as int], self.listed()[i]));
                }
            }
        }
        let r = k < self.items.len() && str_eq(self.items[k].as_str(), key);
        proof {
            if r {
                assert(self.listed()[k as int] == key@);
            }
        }
        r
    }

    /// Adds a text; says whether it is new.
    pub fn insert(&mut self, key: String) -> (r: bool)
        ensures
            r == !old(self)@.contains(key@),
            final(self)@ == old(self)@.insert(key@),
    {
        let ghost before = self.listed();
        proof {
            use_type_invariant(&*self);
        }
        if self.contains(key.as_str()) {
            proof {
                assert(self@ =~= self@.insert(key@));
            }
            return false;
        }
        let k = self.place(key.as_str());
        let ghost text = key@;
        proof {
            let after = before.insert(k as int, text);
            assert forall|i: int, j: int|
                #![trigger after[i], after[j]]
                0 <= i < j < after.len() implies text_before(after[i], after[j]) by {
                let i0 = if i < k { i } else { i - 1 };
                let j0 = if j < k { j } else { j - 1 };
                if i != k {
                    assert(after[i] == before[i0]);
                }
                if j != k {
                    assert(after[j] == before[j0]);
                }
                if i == k {
                    text_before_total(text, before[j0]);
                    if text == before[j0] {
                        assert(before.contains(text));
                    }
                }
            }
            assert(texts(self.items@.insert(k as int, key)) =~= after);
        }
        let mut taken = TextSet::new();
        std::mem::swap(self, &mut taken);
        let mut items = taken.items;
        items.insert(k, key);
        *self = TextSet { items };
        proof {
            assert(self.listed() =~= before.insert(k as int, text));
            assert(self@ =~= before.to_set().insert(text)) by {
                let after = self.listed();
                assert(after[k as int] == text);
                assert forall|t: Seq<char>|
                    after.contains(t) == (before.contains(t) || t == text) by {
                    if before.contains(t) {
                        let i = before.index_of(t);
                        if i < k {
                            assert(after[i] == t);
                        } else {
                            assert(after[i + 1] == t);
                        }
                    }
                    if after.contains(t) && t != text {
                        let i = after.index_of(t);
                        if i < k {
                            assert(before[i] == t);
                        } else {
                            assert(before[i - 1] == t);
                        }
                    }
                }
            }
        }
        true
    }

    /// Removes every member.
    pub fn clear(&mut self)
        ensures
            final(self)@ == Set::<Seq<char>>::empty(),
            final(self).listed() == Seq::<Seq<char>>::empty(),
    {
        *self = TextSet::new();
    }

    /// Keeps the members from place `n` on.
    pub fn remove_first(&mut self, n: usize)
        requires
            n <= old(self).listed().len(),
        ensures
            final(self).listed() == old(self).listed().skip(n as int),
            final(self)@.subset_of(old(self)@),
            final(self)@.len() == old(self)@.len() - n,
    {
        proof {
            use_type_invariant(&*self);
            ascending_no_duplicates(self.listed());
            self.listed().unique_seq_to_set();
        }
        let ghost before = self.listed();
        let mut kept: Vec<String> = Vec::new();
        let mut i: usize = n;
        while i < self.items.len()
            invariant
                n <= i <= self.items@.len(),
                before == texts(self.items@),
                texts(kept@) == before.subrange(n as int, i as int),
            decreases self.items.len() - i,
        {
            let ghost kept0 = kept@;
            kept.push(self.items[i].clone());
            i += 1;
            proof {
                assert(texts(kept@) =~= texts(kept0).push(before[i - 1]));
                assert(texts(kept@) =~= before.subrange(n as int, i as int));
            }
        }
        proof {
            assert(texts(kept@) =~= before.skip(n as int));
            assert(ascending(before.skip(n as int)));
            ascending_no_duplicates(before.skip(n as int));
            before.skip(n as int).unique_seq_to_set();
            assert(before.skip(n as int).to_set().subset_of(before.to_set())) by {
                assert forall|t: Seq<char>| before.skip(n as int).contains(t) implies before.contains(
                    t,
                ) by {
                    let k = before.skip(n as int).index_of(t);
                    assert(before[k + n] == t);
                }
            }
        }
        self.items = kept;
    }
}

impl Clone for TextSet {
    fn clone(&self) -> (r: Self)
        ensures
            r.listed() == self.listed(),
            r@ == self@,
    {
        proof {
            use_type_invariant(self);
        }
        let items = self.items.clone();
        proof {
            assert(texts(items@) =~= texts(self.items@));
        }
        TextSet { items }
    }
}

/// A map from texts.
#[derive(Debug, PartialEq, Eq, Default)]
pub struct TextMap<V> {
    keys: Vec<String>,
    values: Vec<V>,
}

impl<V> TextMap<V> {
    #[verifier::type_invariant]
    closed spec fn inv(&self) -> bool {
        ascending(self.listed()) && self.keys@.len() == self.values@.len()
    }

    /// The keys in ascending order.
    pub closed spec fn listed(&self) -> Seq<Seq<char>> {
        texts(self.keys@)
    }

    /// The values, in the order of their keys.
    pub closed spec fn held(&self) -> Seq<V> {
        self.values@
    }

    /// The entries.
    pub open spec fn view(&self) -> Map<Seq<char>, V> {
        Map::new(
            |k: Seq<char>| self.listed().contains(k),
            |k: Seq<char>| self.held()[self.listed().index_of(k)],
        )
    }

    pub fn new() -> (r: Self)
        ensures
            r@ == Map::<Seq<char>, V>::empty(),
            r.listed() == Seq::<Seq<char>>::empty(),
    {
        let r = TextMap { keys: Vec::new(), values: Vec::new() };
        proof {
            assert(r.listed() =~= Seq::<Seq<char>>::empty());
            assert(r@ =~= Map::<Seq<char>, V>::empty());
        }
        r
    }

    /// The number of entries.
    pub fn len(&self) -> (n: usize)
        ensures
            n == self.listed().len(),
            n == self@.dom().len(),
            self@.dom() == self.listed().to_set(),
            ascending(self.listed()),
            self.held().len() == self.listed().len(),
            self@.dom().finite(),
    {
        proof {
            use_type_invariant(self);
            ascending_no_duplicates(self.listed());
            self.listed().unique_seq_to_set();
            assert(self@.dom() =~= self.listed().to_set());
        }
        self.keys.len()
    }

    /// The key at place `i` of the ascending order.
    pub fn key_at(&self, i: usize) -> (r: &String)
        requires
            i < self.listed().len(),
        ensures
            r@ == self.listed()[i as int],
            self@.contains_key(r@),
    {
        proof {
            assert(self.listed().contains(self.listed()[i as int]));
        }
        &self.keys[i]
    }

    /// The value at place `i` of the ascending order of keys.
    pub fn value_at(&self, i: usize) -> (r: &V)
        requires
            i < self.listed().len(),
        ensures
            *r == self.held()[i as int],
            *r == self@[self.listed()[i as int]],
            self@.contains_key(self.listed()[i as int]),
    {
        proof {
            use_type_invariant(self);
            ascending_no_duplicates(self.listed());
            let k = self.listed()[i as int];
            assert(self.listed().contains(k));
            assert(self.listed().index_of(k) == i);
        }
        &self.values[i]
    }

    /// The values, in the order of their keys.
    pub fn into_values(self) -> (r: Vec<V>)
        ensures
            r@ == self.held(),
            r@.len() == self.listed().len(),
            ascending(self.listed()),
            forall|i: int|
                0 <= i < r@.len() ==> self@.contains_key(#[trigger] self.listed()[i])
                    && self@[self.listed()[i]] == r@[i],
            self@.dom() == self.listed().to_set(),
    {
        proof {
            use_type_invariant(&self);
            ascending_no_duplicates(self.listed());
            assert forall|i: int| 0 <= i < self.listed().len() implies self@.contains_key(
                #[trigger] self.listed()[i],
            ) && self@[self.listed()[i]] == self.held()[i] by {
                let k = self.listed()[i];
                assert(self.listed().contains(k));
                assert(self.listed().index_of(k) == i);
            }
            assert(self@.dom() =~= self.listed().to_set());
        }
        self.values
    }

    fn place(&self, key: &str) -> (k: usize)
        ensures
            k <= self.listed().len(),
            forall|i: int| 0 <= i < k ==> text_before(#[trigger] self.listed()[i], key@),
            forall|i: int|
                k <= i < self.listed().len() ==> !text_before(#[trigger] self.listed()[i], key@),
    {
        proof {
            use_type_invariant(self);
        }
        let mut lo: usize = 0;
        let mut hi: usize = self.keys.len();
        while lo < hi
            invariant
                lo <= hi <= self.listed().len(),
                self.listed() == texts(self.keys@),
                ascending(self.listed()),
                forall|i: int| 0 <= i < lo ==> text_before(#[trigger] self.listed()[i], key@),
                forall|i: int|
                    hi <= i < self.listed().len() ==> !text_before(
                        #[trigger] self.listed()[i],
                        key@,
                    ),
            decreases hi - lo,
        {
            let mid: usize = lo + (hi - lo) / 2;
            if text_lt(self.keys[mid].as_str(), key) {
                proof {
                    assert forall|i: int| 0 <= i < mid + 1 implies text_before(
                        #[trigger] self.listed()[i],
                        key@,
                    ) by {
                        if i < mid {
                            text_before_transitive(
                                self.listed()[i],
                                self.listed()[mid as int],
                                key@,
                            );
                        }
                    }
                }
                lo = mid + 1;
            } else {
                proof {
                    assert forall|i: int| mid <= i < self.listed().len() implies !text_before(
                        #[trigger] self.listed()[i],
                        key@,
                    ) by {
                        if i > mid && text_before(self.listed()[i], key@) {
                            text_before_transitive(
                                self.listed()[mid as int],
                                self.listed()[i],
                                key@,
                            );
                        }
                    }
                }
                hi = mid;
            }
        }
        lo
    }

    /// The place of a key that is held.
    fn find(&self, key: &str) -> (r: Option<usize>)
        ensures
            match r {
                Some(k) => k < self.listed().len() && self.listed()[k as int] == key@
                    && self.listed().index_of(key@) == k && self@.contains_key(key@),
                None => !self@.contains_key(key@),
            },
    {
        let k = self.place(key);
        proof {
            use_type_invariant(self);
            ascending_no_duplicates(self.listed());
            if self.listed().contains(key@) {
                let i = self.listed().index_of(key@);
                text_before_irreflexive(key@);
                assert(i >= k);
                if i > k {
                    assert(text_before(self.listed()[k as int], self.listed()[i]));
                }
            }
        }
        if k < self.keys.len() && str_eq(self.keys[k].as_str(), key) {
            proof {
                assert(self.listed()[k as int] == key@);
                assert(self.listed().contains(key@));
            }
            Some(k)
        } else {
            None
        }
    }

    pub fn contains_key(&self, key: &str) -> (r: bool)
        ensures
            r == self@.contains_key(key@),
    {
        self.find(key).is_some()
    }

    pub fn get(&self, key: &str) -> (r: Option<&V>)
        ensures
            match r {
                Some(v) => self@.contains_key(key@) && *v == self@[key@],
                None => !self@.contains_key(key@),
            },
    {
        proof {
            use_type_invariant(self);
        }
        match self.find(key) {
            Some(k) => Some(&self.values[k]),
            None => None,
        }
    }

    /// Sets the value of a key.
    pub fn insert(&mut self, key: String, value: V)
        ensures
            final(self)@ == old(self)@.insert(key@, value),
    {
        let ghost before = self.listed();
        let ghost held = self.values@;
        let ghost text = key@;
        let ghost entries = self@;
        proof {
            use_type_invariant(&*self);
            ascending_no_duplicates(before);
        }
        match self.find(key.as_str()) {
            Some(k) => {
                let mut taken = TextMap::new();
                std::mem::swap(self, &mut taken);
                let keys = taken.keys;
                let mut values = taken.values;
                values[k] = value;
                *self = TextMap { keys, values };
                proof {
                    assert(self.listed() == before);
                    assert(self@ =~= entries.insert(text, value)) by {
                        assert forall|t: Seq<char>|
                            self@.contains_key(t) && t != text implies self@[t] == entries[t] by {
                            assert(before.index_of(t) != k);
                        }
                    }
                }
            },
            None => {
                let k = self.place(key.as_str());
                proof {
                    let after = before.insert(k as int, text);
                    assert forall|i: int, j: int|
                        #![trigger after[i], after[j]]
                        0 <= i < j < after.len() implies text_before(after[i], after[j]) by {
                        let i0 = if i < k { i } else { i - 1 };
                        let j0 = if j < k { j } else { j - 1 };
                        if i != k {
                            assert(after[i] == before[i0]);
                        }
                        if j != k {
                            assert(after[j] == before[j0]);
                        }
                        if i == k {
                            text_before_total(text, before[j0]);
                            if text == before[j0] {
                                assert(before.contains(text));
                            }
                        }
                    }
                    assert(texts(self.keys@.insert(k as int, key)) =~= after);
                }
                let mut taken = TextMap::new();
                std::mem::swap(self, &mut taken);
                let mut keys = taken.keys;
                let mut values = taken.values;
                keys.insert(k, key);
                values.insert(k, value);
                *self = TextMap { keys, values };
                proof {
                    let after = self.listed();
                    assert(after =~= before.insert(k as int, text));
                    ascending_no_duplicates(after);
                    assert(after[k as int] == text);
                    assert forall|t: Seq<char>|
                        after.contains(t) == (before.contains(t) || t == text) by {
                        if before.contains(t) {
                            let i = before.index_of(t);
                            if i < k {
                                assert(after[i] == t);
                            } else {
                                assert(after[i + 1] == t);
                            }
                        }
                        if after.contains(t) && t != text {
                            let i = after.index_of(t);
                            if i < k {
                                assert(before[i] == t);
                            } else {
                                assert(before[i - 1] == t);
                            }
                        }
                    }
                    assert(self@ =~= entries.insert(text, value)) by {
                        assert forall|t: Seq<char>|
                            self@.contains_key(t) implies self@[t] == entries.insert(text, value)[t] by {
                            let i = after.index_of(t);
                            assert(after[i] == t);
                            if t == text {
                                assert(i == k);
                            } else if i < k {
                                assert(before[i] == t);
                                assert(before.index_of(t) == i);
                            } else {
                                assert(before[i - 1] == t);
                                assert(before.index_of(t) == i - 1);
                            }
                        }
                    }
                }
            },
        }
    }

    /// Takes a key out, with its value.
    pub fn remove(&mut self, key: &str) -> (r: Option<V>)
        ensures
            match r {
                Some(v) => old(self)@.contains_key(key@) && v == old(self)@[key@],
                None => !old(self)@.contains_key(key@),
            },
            final(self)@ == old(self)@.remove(key@),
    {
        let ghost before = self.listed();
        let ghost held = self.values@;
        let ghost entries = self@;
        proof {
            use_type_invariant(&*self);
            ascending_no_duplicates(before);
        }
        match self.find(key) {
            Some(k) => {
                let mut taken = TextMap::new();
                std::mem::swap(self, &mut taken);
                let mut keys = taken.keys;
                let mut values = taken.values;
                let _ = keys.remove(k);
                let value = values.remove(k);
                proof {
                    let after = texts(keys@);
                    assert(after =~= before.remove(k as int));
                    assert forall|i: int, j: int|
                        #![trigger after[i], after[j]]
                        0 <= i < j < after.len() implies text_before(after[i], after[j]) by {
                        let i0 = if i < k { i } else { i + 1 };
                        let j0 = if j < k { j } else { j + 1 };
                        assert(after[i] == before[i0] && after[j] == before[j0]);
                    }
                }
                *self = TextMap { keys, values };
                proof {
                    let after = self.listed();
                    assert(after =~= before.remove(k as int));
                    ascending_no_duplicates(after);
                    assert forall|t: Seq<char>|
                        after.contains(t) == (before.contains(t) && t != key@) by {
                        if before.contains(t) && t != key@ {
                            let i = before.index_of(t);
                            if i < k {
                                assert(after[i] == t);
                            } else {
                                assert(after[i - 1] == t);
                            }
                        }
                        if after.contains(t) {
                            let i = after.index_of(t);
                            if i < k {
                                assert(before[i] == t);
                            } else {
                                assert(before[i + 1] == t);
                            }
                        }
                    }
                    assert(self@ =~= entries.remove(key@)) by {
                        assert forall|t: Seq<char>|
                            self@.contains_key(t) implies self@[t] == entries[t] by {
                            let i = after.index_of(t);
                            assert(after[i] == t);
                            if i < k {
                                assert(before[i] == t);
                                assert(before.index_of(t) == i);
                            } else {
                                assert(before[i + 1] == t);
                                assert(before.index_of(t) == i + 1);
                            }
                        }
                    }
                }
                Some(value)
            },
            None => {
                proof {
                    assert(self@ =~= entries.remove(key@));
                }
                None
            },
        }
    }
}

impl<V: Clone> Clone for TextMap<V> {
    fn clone(&self) -> (r: Self)
        ensures
            r.listed() == self.listed(),
            r.held().len() == self.held().len(),
            forall|i: int|
                0 <= i < r.held().len() ==> cloned::<V>(#[trigger] self.held()[i], r.held()[i]),
    {
        proof {
            use_type_invariant(self);
        }
        let keys = self.keys.clone();
        let values = self.values.clone();
        proof {
            assert(texts(keys@) =~= texts(self.keys@));
        }
        TextMap { keys, values }
    }
}

/// What is listed in ascending order has every text before the next ones.
pub proof fn ascending_means_each_before_the_next(s: Seq<Seq<char>>, i: int, j: int)
    requires
        ascending(s),
        0 <= i < j < s.len(),
    ensures
        text_before(s[i], s[j]),
        s[i] != s[j],
{
    ascending_no_duplicates(s);
}

} // verus!
