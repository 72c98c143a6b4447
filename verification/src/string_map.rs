//! A map from text to text that keeps its entries in the order of their keys.

use vstd::prelude::*;
use vstd::string::StrSliceExecFns;

use crate::lists::{no_items, push_item};
use crate::text::same_text;

verus! {

/// Whether `a` stands before `b` in the lexicographic order of characters,
/// which is the order of Rust's strings.
pub open spec fn text_before(a: Seq<char>, b: Seq<char>) -> bool
    decreases a.len(),
{
    if b.len() == 0 {
        false
    } else if a.len() == 0 {
        true
    } else if a[0] == b[0] {
        text_before(a.drop_first(), b.drop_first())
    } else {
        a[0] < b[0]
    }
}

pub proof fn lemma_text_before_irreflexive(a: Seq<char>)
    ensures
        !text_before(a, a),
    decreases a.len(),
{
    if a.len() > 0 {
        lemma_text_before_irreflexive(a.drop_first());
    }
}

pub proof fn lemma_text_before_transitive(a: Seq<char>, b: Seq<char>, c: Seq<char>)
    requires
        text_before(a, b),
        text_before(b, c),
    ensures
        text_before(a, c),
    decreases a.len(),
{
    if a.len() > 0 && a[0] == b[0] && b[0] == c[0] {
        lemma_text_before_transitive(a.drop_first(), b.drop_first(), c.drop_first());
    }
}

pub proof fn lemma_text_before_total(a: Seq<char>, b: Seq<char>)
    ensures
        text_before(a, b) || text_before(b, a) || a == b,
    decreases a.len(),
{
    if a.len() > 0 && b.len() > 0 {
        if a[0] == b[0] {
            lemma_text_before_total(a.drop_first(), b.drop_first());
            if a.drop_first() == b.drop_first() {
                assert(a =~= seq![a[0]] + a.drop_first());
                assert(b =~= seq![b[0]] + b.drop_first());
            }
        }
    } else if a.len() == 0 && b.len() == 0 {
        assert(a =~= b);
    }
}

/// Whether `a` stands before `b` in the order of strings.
pub fn stands_before(a: &str, b: &str) -> (r: bool)
    ensures
        r == text_before(a@, b@),
{
    let n: usize = a.unicode_len();
    let m: usize = b.unicode_len();
    let mut i: usize = 0;
    assert(a@.skip(0) =~= a@);
    assert(b@.skip(0) =~= b@);
    while i < n && i < m
        invariant
            n == a@.len(),
            m == b@.len(),
            i <= n,
            i <= m,
            text_before(a@, b@) == text_before(a@.skip(i as int), b@.skip(i as int)),
        decreases n - i,
    {
        let x: char = a.get_char(i);
        let y: char = b.get_char(i);
        if x != y {
            return x < y;
        }
        assert(a@.skip(i as int).drop_first() =~= a@.skip(i + 1));
        assert(b@.skip(i as int).drop_first() =~= b@.skip(i + 1));
        i = i + 1;
    }
    i < m
}

/// The map that a list of pairs holds; of equal keys the last one counts.
pub open spec fn map_of(pairs: Seq<(Seq<char>, Seq<char>)>) -> Map<Seq<char>, Seq<char>>
    decreases pairs.len(),
{
    if pairs.len() == 0 {
        Map::empty()
    } else {
        map_of(pairs.drop_last()).insert(pairs.last().0, pairs.last().1)
    }
}

/// Whether the keys of the pairs strictly increase.
pub open spec fn keys_increase(pairs: Seq<(Seq<char>, Seq<char>)>) -> bool {
    forall|i: int, j: int| #![trigger pairs[i], pairs[j]]
        0 <= i < j < pairs.len() ==> text_before(pairs[i].0, pairs[j].0)
}

/// Looking a key up in the map of a list with increasing keys finds the pair
/// that holds it.
pub proof fn lemma_map_of(pairs: Seq<(Seq<char>, Seq<char>)>)
    requires
        keys_increase(pairs),
    ensures
        forall|i: int|
            0 <= i < pairs.len() ==> map_of(pairs).contains_pair(
                #[trigger] pairs[i].0,
                pairs[i].1,
            ),
        forall|k: Seq<char>| #[trigger]
            map_of(pairs).dom().contains(k) ==> exists|i: int|
                0 <= i < pairs.len() && #[trigger] pairs[i].0 == k,
    decreases pairs.len(),
{
    if pairs.len() > 0 {
        let rest = pairs.drop_last();
        let last = pairs.last();
        assert(keys_increase(rest)) by {
            assert forall|i: int, j: int|
                #![trigger rest[i], rest[j]]
                0 <= i < j < rest.len() implies text_before(rest[i].0, rest[j].0) by {
                assert(rest[i] == pairs[i] && rest[j] == pairs[j]);
            }
        }
        lemma_map_of(rest);
        assert forall|i: int| 0 <= i < pairs.len() implies map_of(pairs).contains_pair(
            #[trigger] pairs[i].0,
            pairs[i].1,
        ) by {
            if i < rest.len() {
                assert(rest[i] == pairs[i]);
                assert(map_of(rest).contains_pair(rest[i].0, rest[i].1));
                assert(text_before(pairs[i].0, pairs[pairs.len() - 1].0));
                lemma_text_before_irreflexive(last.0);
            }
        }
        assert forall|k: Seq<char>| #[trigger] map_of(pairs).dom().contains(k) implies exists|i: int|
            0 <= i < pairs.len() && #[trigger] pairs[i].0 == k by {
            if k == last.0 {
                assert(pairs[pairs.len() - 1].0 == k);
            } else {
                assert(map_of(rest).dom().contains(k));
                let i = choose|i: int| 0 <= i < rest.len() && #[trigger] rest[i].0 == k;
                assert(pairs[i].0 == k);
            }
        }
    }
}

/// A map from text to text, in the order of the keys.
#[derive(Debug, PartialEq, Eq)]
pub struct StringMap {
    entries: Vec<(String, String)>,
}

impl DeepView for StringMap {
    type V = Map<Seq<char>, Seq<char>>;

    open spec fn deep_view(&self) -> Map<Seq<char>, Seq<char>> {
        map_of(self.pairs())
    }
}

impl StringMap {
    /// The entries in the order of their keys.
    pub closed spec fn pairs(&self) -> Seq<(Seq<char>, Seq<char>)> {
        self.entries.deep_view()
    }

    #[verifier::type_invariant]
    spec fn ordered(&self) -> bool {
        keys_increase(self.pairs())
    }

    /// The map without entries.
    pub fn new() -> (r: Self)
        ensures
            r.pairs() == Seq::<(Seq<char>, Seq<char>)>::empty(),
            r.deep_view() == Map::<Seq<char>, Seq<char>>::empty(),
    {
        let r = StringMap { entries: Vec::new() };
        assert(r.pairs() =~= Seq::<(Seq<char>, Seq<char>)>::empty());
        r
    }

    /// The number of entries.
    pub fn len(&self) -> (r: usize)
        ensures
            r == self.pairs().len(),
            keys_increase(self.pairs()),
    {
        proof {
            use_type_invariant(self);
        }
        self.entries.len()
    }

    /// Whether there is no entry.
    pub fn is_empty(&self) -> (r: bool)
        ensures
            r == (self.deep_view() == Map::<Seq<char>, Seq<char>>::empty()),
    {
        proof {
            use_type_invariant(self);
            lemma_map_of(self.pairs());
            if self.pairs().len() > 0 {
                assert(self.deep_view().dom().contains(self.pairs()[0].0));
            }
        }
        self.entries.len() == 0
    }

    /// The key of the entry at a position in the order of the keys.
    pub fn key_at(&self, i: usize) -> (r: &str)
        requires
            i < self.pairs().len(),
        ensures
            r@ == self.pairs()[i as int].0,
    {
        self.entries[i].0.as_str()
    }

    /// The value of the entry at a position in the order of the keys.
    pub fn value_at(&self, i: usize) -> (r: &str)
        requires
            i < self.pairs().len(),
        ensures
            r@ == self.pairs()[i as int].1,
    {
        self.entries[i].1.as_str()
    }

    /// The value that a key stands for.
    pub fn get(&self, key: &str) -> (r: Option<&str>)
        ensures
            match r {
                Some(value) => self.deep_view().contains_pair(key@, value@),
                None => !self.deep_view().dom().contains(key@),
            },
    {
        proof {
            use_type_invariant(self);
            lemma_map_of(self.pairs());
        }
        for i in 0..self.entries.len()
            invariant
                keys_increase(self.pairs()),
                forall|j: int| 0 <= j < i ==> #[trigger] self.pairs()[j].0 != key@,
        {
            if same_text(self.entries[i].0.as_str(), key) {
                proof {
                    lemma_map_of(self.pairs());
                    assert(self.pairs()[i as int].0 == key@);
                }
                return Some(self.entries[i].1.as_str());
            }
        }
        None
    }

    /// Whether the map has an entry for a key.
    pub fn contains_key(&self, key: &str) -> (r: bool)
        ensures
            r == self.deep_view().dom().contains(key@),
    {
        match self.get(key) {
            Some(_) => true,
            None => false,
        }
    }

    /// Lets `key` stand for `value`, in place of what it stood for before.
    pub fn insert(&mut self, key: String, value: String)
        ensures
            final(self).deep_view() == old(self).deep_view().insert(key@, value@),
    {
        proof {
            use_type_invariant(&*self);
        }
        let ghost before = self.pairs();
        let ghost map = self.deep_view();
        let mut entries: Vec<(String, String)> = Vec::new();
        std::mem::swap(&mut entries, &mut self.entries);
        let mut i: usize = 0;
        while i < entries.len() && stands_before(entries[i].0.as_str(), key.as_str())
            invariant
                entries.deep_view() == before,
                i <= entries@.len(),
                forall|j: int| 0 <= j < i ==> text_before((#[trigger] before[j]).0, key@),
            decreases entries@.len() - i,
        {
            i = i + 1;
        }
        let ghost kv = (key@, value@);
        proof {
            lemma_map_of(before);
            lemma_text_before_irreflexive(key@);
        }
        if i < entries.len() && same_text(entries[i].0.as_str(), key.as_str()) {
            proof {
                assert(before[i as int].0 == key@);
                let after = before.update(i as int, kv);
                assert forall|a: int, b: int|
                    #![trigger after[a], after[b]]
                    0 <= a < b < after.len() implies text_before(after[a].0, after[b].0) by {
                    assert(text_before(before[a].0, before[b].0));
                }
                lemma_map_of(after);
                assert forall|k: Seq<char>|
                    map_of(after).dom().contains(k) == map.insert(key@, value@).dom().contains(
                        k,
                    ) by {
                    if map_of(after).dom().contains(k) {
                        let j = choose|j: int| 0 <= j < after.len() && #[trigger] after[j].0 == k;
                        assert(before[j].0 == k);
                        assert(map.contains_pair(before[j].0, before[j].1));
                    }
                    if map.dom().contains(k) {
                        let j = choose|j: int| 0 <= j < before.len() && #[trigger] before[j].0 == k;
                        assert(after[j].0 == k);
                        assert(map_of(after).contains_pair(after[j].0, after[j].1));
                    }
                    assert(after[i as int].0 == key@);
                    assert(map_of(after).contains_pair(after[i as int].0, after[i as int].1));
                }
                assert forall|k: Seq<char>| #[trigger] map_of(after).dom().contains(k) implies map_of(
                    after,
                )[k] == map.insert(key@, value@)[k] by {
                    let j = choose|j: int| 0 <= j < after.len() && #[trigger] after[j].0 == k;
                    assert(map_of(after).contains_pair(after[j].0, after[j].1));
                    assert(map.contains_pair(before[j].0, before[j].1));
                    if j != i {
                        if j < i {
                            assert(text_before(before[j].0, before[i as int].0));
                        } else {
                            assert(text_before(before[i as int].0, before[j].0));
                        }
                    }
                }
                assert(map_of(after) =~= map.insert(key@, value@));
            }
            entries[i] = (key, value);
            proof {
                assert(entries.deep_view() =~= before.update(i as int, kv));
            }
        } else {
            proof {
                let after = before.insert(i as int, kv);
                if i < before.len() {
                    lemma_text_before_total(before[i as int].0, key@);
                    assert forall|j: int| i <= j < before.len() implies text_before(
                        key@,
                        (#[trigger] before[j]).0,
                    ) by {
                        if j > i {
                            lemma_text_before_transitive(key@, before[i as int].0, before[j].0);
                        }
                    }
                }
                assert forall|a: int, b: int|
                    #![trigger after[a], after[b]]
                    0 <= a < b < after.len() implies text_before(after[a].0, after[b].0) by {
                    let x = if a < i { a } else { a - 1 };
                    let y = if b < i { b } else { b - 1 };
                    if a != i {
                        assert(after[a] == before[x]);
                    }
                    if b != i {
                        assert(after[b] == before[y]);
                    }
                }
                lemma_map_of(after);
                assert forall|j: int| 0 <= j < before.len() implies (#[trigger] before[j]).0
                    != key@ by {
                    if j < i {
                        assert(text_before(before[j].0, key@));
                    }
                }
                assert forall|k: Seq<char>|
                    map_of(after).dom().contains(k) == map.insert(key@, value@).dom().contains(
                        k,
                    ) by {
                    if map_of(after).dom().contains(k) {
                        let j = choose|j: int| 0 <= j < after.len() && #[trigger] after[j].0 == k;
                        if j < i {
                            assert(after[j] == before[j]);
                            assert(map.contains_pair(before[j].0, before[j].1));
                        } else if j > i {
                            assert(after[j] == before[j - 1]);
                            assert(map.contains_pair(before[j - 1].0, before[j - 1].1));
                        }
                    }
                    if map.dom().contains(k) {
                        let j = choose|j: int| 0 <= j < before.len() && #[trigger] before[j].0 == k;
                        let x = if j < i { j } else { j + 1 };
                        assert(after[x] == before[j]);
                        assert(map_of(after).contains_pair(after[x].0, after[x].1));
                    }
                    assert(after[i as int].0 == key@);
                    assert(map_of(after).contains_pair(after[i as int].0, after[i as int].1));
                }
                assert forall|k: Seq<char>| #[trigger] map_of(after).dom().contains(k) implies map_of(
                    after,
                )[k] == map.insert(key@, value@)[k] by {
                    let j = choose|j: int| 0 <= j < after.len() && #[trigger] after[j].0 == k;
                    assert(map_of(after).contains_pair(after[j].0, after[j].1));
                    if j < i {
                        assert(after[j] == before[j]);
                        assert(map.contains_pair(before[j].0, before[j].1));
                    } else if j > i {
                        assert(after[j] == before[j - 1]);
                        assert(map.contains_pair(before[j - 1].0, before[j - 1].1));
                    }
                }
                assert(map_of(after) =~= map.insert(key@, value@));
            }
            entries.insert(i, (key, value));
            proof {
                assert(entries.deep_view() =~= before.insert(i as int, kv));
            }
        }
        self.entries = entries;
    }

    /// `insert` for borrowed texts.
    pub fn put(&mut self, key: &str, value: &str)
        ensures
            final(self).deep_view() == old(self).deep_view().insert(key@, value@),
    {
        self.insert(key.to_owned(), value.to_owned());
    }

    /// Takes over all the entries of another map, in place of what their keys stood
    /// for before.
    pub fn put_all(&mut self, other: &StringMap)
        ensures
            final(self).deep_view() == old(self).deep_view().union_prefer_right(
                other.deep_view(),
            ),
    {
        let ghost before = self.deep_view();
        let n: usize = other.len();
        let ghost pairs = other.pairs();
        proof {
            assert(pairs.take(0) =~= Seq::<(Seq<char>, Seq<char>)>::empty());
            assert(before.union_prefer_right(map_of(pairs.take(0))) =~= before);
        }
        for i in 0..n
            invariant
                pairs == other.pairs(),
                n == pairs.len(),
                self.deep_view() == before.union_prefer_right(map_of(pairs.take(i as int))),
        {
            self.put(other.key_at(i), other.value_at(i));
            proof {
                let next = pairs.take(i + 1);
                assert(next.drop_last() =~= pairs.take(i as int));
                assert(before.union_prefer_right(map_of(next)) =~= before.union_prefer_right(
                    map_of(pairs.take(i as int)),
                ).insert(next.last().0, next.last().1));
            }
        }
        assert(pairs.take(n as int) =~= pairs);
    }
}

impl Clone for StringMap {
    fn clone(&self) -> (r: Self)
        ensures
            r.pairs() == self.pairs(),
            r.deep_view() == self.deep_view(),
    {
        proof {
            use_type_invariant(self);
        }
        let mut entries: Vec<(String, String)> = no_items();
        for i in 0..self.entries.len()
            invariant
                entries.deep_view() == self.pairs().take(i as int),
        {
            let ghost done = self.pairs().take(i as int);
            push_item(&mut entries, (self.entries[i].0.clone(), self.entries[i].1.clone()));
            assert(self.pairs().take(i + 1) =~= done.push(self.pairs()[i as int]));
        }
        assert(entries.deep_view() =~= self.pairs());
        StringMap { entries }
    }
}

} // verus!
