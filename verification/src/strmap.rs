//! A map from text to values that keeps its entries in the order in which
//! their keys first came.

use vstd::prelude::*;

verus! {

/// The map that inserting `pairs` one after the other gives.
pub open spec fn map_of<W>(pairs: Seq<(Seq<char>, W)>) -> Map<Seq<char>, W>
    decreases pairs.len(),
{
    if pairs.len() == 0 {
        Map::empty()
    } else {
        map_of(pairs.drop_last()).insert(pairs.last().0, pairs.last().1)
    }
}

/// No key stands twice in `pairs`.
pub open spec fn distinct_keys<W>(pairs: Seq<(Seq<char>, W)>) -> bool {
    forall|i: int, j: int| 0 <= i < j < pairs.len() ==> pairs[i].0 != pairs[j].0
}

/// Where `key` first stands in `pairs`; their length if it stands nowhere.
pub open spec fn position<W>(pairs: Seq<(Seq<char>, W)>, key: Seq<char>) -> int
    decreases pairs.len(),
{
    if pairs.len() == 0 {
        0
    } else if pairs[0].0 == key {
        0
    } else {
        1 + position(pairs.drop_first(), key)
    }
}

/// `pairs` after `key` was given the value `w`: in the place where `key`
/// stood, or at the end.
pub open spec fn put<W>(pairs: Seq<(Seq<char>, W)>, key: Seq<char>, w: W) -> Seq<(Seq<char>, W)> {
    let at = position(pairs, key);
    if at < pairs.len() {
        pairs.update(at, (key, w))
    } else {
        pairs.push((key, w))
    }
}

/// What is left of `pairs` when each is put into an empty map in turn.
pub open spec fn put_all<W>(pairs: Seq<(Seq<char>, W)>) -> Seq<(Seq<char>, W)>
    decreases pairs.len(),
{
    if pairs.len() == 0 {
        Seq::empty()
    } else {
        put(put_all(pairs.drop_last()), pairs.last().0, pairs.last().1)
    }
}

/// `position` finds the first pair with the key, and only that.
pub proof fn position_is<W>(pairs: Seq<(Seq<char>, W)>, key: Seq<char>, at: int)
    requires
        0 <= at <= pairs.len(),
        forall|j: int| 0 <= j < at ==> (#[trigger] pairs[j]).0 != key,
        at < pairs.len() ==> pairs[at].0 == key,
    ensures
        position(pairs, key) == at,
    decreases at,
{
    if at > 0 {
        let rest = pairs.drop_first();
        assert(forall|j: int| 0 <= j < at - 1 ==> (#[trigger] rest[j]).0 != key);
        if at < pairs.len() {
            assert(rest[at - 1] == pairs[at]);
        }
        position_is(rest, key, at - 1);
    }
}

/// A key is in the map of `pairs` exactly if some pair has it.
pub proof fn map_of_has<W>(pairs: Seq<(Seq<char>, W)>, key: Seq<char>)
    ensures
        map_of(pairs).contains_key(key) <==> exists|i: int|
            0 <= i < pairs.len() && (#[trigger] pairs[i]).0 == key,
    decreases pairs.len(),
{
    if pairs.len() > 0 {
        let init = pairs.drop_last();
        map_of_has(init, key);
        if map_of(pairs).contains_key(key) && pairs.last().0 != key {
            let i = choose|i: int| 0 <= i < init.len() && (#[trigger] init[i]).0 == key;
            assert(pairs[i] == init[i]);
        }
        if exists|i: int| 0 <= i < pairs.len() && (#[trigger] pairs[i]).0 == key {
            let i = choose|i: int| 0 <= i < pairs.len() && (#[trigger] pairs[i]).0 == key;
            if i < pairs.len() - 1 {
                assert(init[i] == pairs[i]);
            }
        }
    }
}

/// Where no key stands twice, the map of `pairs` gives each key the value
/// that stands with it.
pub proof fn map_of_at<W>(pairs: Seq<(Seq<char>, W)>, at: int)
    requires
        distinct_keys(pairs),
        0 <= at < pairs.len(),
    ensures
        map_of(pairs).contains_key(pairs[at].0),
        map_of(pairs)[pairs[at].0] == pairs[at].1,
    decreases pairs.len(),
{
    let init = pairs.drop_last();
    if at < pairs.len() - 1 {
        assert(distinct_keys(init));
        map_of_at(init, at);
    }
}

/// Where no key stands twice, `put` does to the pairs what `insert` does to
/// their map, and still no key stands twice.
pub proof fn put_is_insert<W>(pairs: Seq<(Seq<char>, W)>, key: Seq<char>, w: W)
    requires
        distinct_keys(pairs),
    ensures
        distinct_keys(put(pairs, key, w)),
        map_of(put(pairs, key, w)) == map_of(pairs).insert(key, w),
    decreases pairs.len(),
{
    let at = position(pairs, key);
    position_bounds(pairs, key);
    let after = put(pairs, key, w);
    if at < pairs.len() {
        assert(distinct_keys(after));
        let init = pairs.drop_last();
        assert forall|i: int, j: int| 0 <= i < j < init.len() implies init[i].0 != init[j].0 by {
            assert(init[i] == pairs[i] && init[j] == pairs[j]);
        }
        if at == pairs.len() - 1 {
            assert(after.drop_last() =~= init);
        } else {
            assert(init[at] == pairs[at]);
            assert(forall|j: int| 0 <= j < at ==> (#[trigger] init[j]).0 != key);
            position_is(init, key, at);
            put_is_insert(init, key, w);
            assert(after.drop_last() =~= put(init, key, w));
            assert(pairs[at].0 != pairs[pairs.len() - 1].0);
        }
    } else {
        assert(distinct_keys(after));
        assert(after.drop_last() =~= pairs);
    }
}

/// `position` lies within the pairs or just behind them, no pair before it
/// has the key, and the pair at it has.
pub proof fn position_bounds<W>(pairs: Seq<(Seq<char>, W)>, key: Seq<char>)
    ensures
        0 <= position(pairs, key) <= pairs.len(),
        forall|j: int| 0 <= j < position(pairs, key) ==> (#[trigger] pairs[j]).0 != key,
        position(pairs, key) < pairs.len() ==> pairs[position(pairs, key)].0 == key,
    decreases pairs.len(),
{
    if pairs.len() > 0 && pairs[0].0 != key {
        let rest = pairs.drop_first();
        position_bounds(rest, key);
        assert forall|j: int| 0 <= j < position(pairs, key) implies (#[trigger] pairs[j]).0
            != key by {
            if j > 0 {
                assert(pairs[j] == rest[j - 1]);
            }
        }
    }
}

/// `put_all` leaves no key twice and keeps the map.
pub proof fn put_all_is_map_of<W>(pairs: Seq<(Seq<char>, W)>)
    ensures
        distinct_keys(put_all(pairs)),
        map_of(put_all(pairs)) == map_of(pairs),
    decreases pairs.len(),
{
    if pairs.len() > 0 {
        put_all_is_map_of(pairs.drop_last());
        put_is_insert(put_all(pairs.drop_last()), pairs.last().0, pairs.last().1);
    }
}

/// A map from text to values. Its entries stand in the order in which their
/// keys first came, and no key stands twice.
#[derive(Debug)]
pub struct StringMap<V: DeepView> {
    entries: Vec<(String, V)>,
}

impl<V: DeepView> View for StringMap<V> {
    type V = Map<Seq<char>, V::V>;

    open spec fn view(&self) -> Map<Seq<char>, V::V> {
        map_of(self.pairs())
    }
}

impl<V: DeepView> StringMap<V> {
    #[verifier::type_invariant]
    spec fn keys_are_distinct(&self) -> bool {
        distinct_keys(self.entries.deep_view())
    }

    /// The entries in their order, each key with its value.
    pub closed spec fn pairs(&self) -> Seq<(Seq<char>, V::V)> {
        self.entries.deep_view()
    }

    /// The map without entries.
    pub fn new() -> (m: Self)
        ensures
            m.pairs() == Seq::<(Seq<char>, V::V)>::empty(),
            m@ == Map::<Seq<char>, V::V>::empty(),
            distinct_keys(m.pairs()),
    {
        let m = StringMap { entries: Vec::new() };
        m
    }

    /// The number of entries.
    pub fn len(&self) -> (n: usize)
        ensures
            n == self.pairs().len(),
    {
        self.entries.len()
    }

    /// The entry at `at`, its key and its value, if there are that many.
    pub fn entry(&self, at: usize) -> (e: Option<(&str, &V)>)
        ensures
            match e {
                Some((key, value)) => at < self.pairs().len() && key@ == self.pairs()[at as int].0
                    && value.deep_view() == self.pairs()[at as int].1,
                None => at >= self.pairs().len(),
            },
    {
        if at < self.entries.len() {
            Some((self.entries[at].0.as_str(), &self.entries[at].1))
        } else {
            None
        }
    }

    /// Where `key` stands among the entries, if it does.
    fn find(&self, key: &str) -> (at: usize)
        ensures
            at == position(self.pairs(), key@),
    {
        let mut at: usize = 0;
        while at < self.entries.len() && !crate::text::same_text(self.entries[at].0.as_str(), key)
            invariant
                at <= self.entries@.len(),
                forall|j: int| 0 <= j < at ==> (#[trigger] self.pairs()[j]).0 != key@,
            decreases self.entries@.len() - at,
        {
            at = at + 1;
        }
        proof {
            position_is(self.pairs(), key@, at as int);
        }
        at
    }

    /// The value that stands with `key`.
    pub fn get(&self, key: &str) -> (value: Option<&V>)
        ensures
            match value {
                Some(v) => self@.contains_key(key@) && v.deep_view() == self@[key@],
                None => !self@.contains_key(key@),
            },
    {
        let at = self.find(key);
        proof {
            use_type_invariant(self);
            position_bounds(self.pairs(), key@);
            map_of_has(self.pairs(), key@);
        }
        if at < self.entries.len() {
            proof {
                map_of_at(self.pairs(), at as int);
            }
            Some(&self.entries[at].1)
        } else {
            None
        }
    }

    /// Gives `key` the value `value`: in the place of the value it had, or as
    /// a new entry behind the others.
    pub fn insert(&mut self, key: String, value: V)
        ensures
            final(self).pairs() == put(old(self).pairs(), key@, value.deep_view()),
            final(self)@ == old(self)@.insert(key@, value.deep_view()),
            distinct_keys(final(self).pairs()),
    {
        let at = self.find(key.as_str());
        proof {
            use_type_invariant(&*self);
            put_is_insert(self.pairs(), key@, value.deep_view());
        }
        let ghost before = self.pairs();
        let ghost k = key@;
        let ghost w = value.deep_view();
        let mut entries: Vec<(String, V)> = Vec::new();
        std::mem::swap(&mut self.entries, &mut entries);
        if at < entries.len() {
            entries.set(at, (key, value));
        } else {
            entries.push((key, value));
        }
        assert(entries.deep_view() =~= put(before, k, w));
        self.entries = entries;
    }

    /// The map that holds `pairs`, put into it one after the other.
    pub fn from_pairs(pairs: Vec<(String, V)>) -> (m: Self)
        ensures
            m.pairs() == put_all(pairs.deep_view()),
            m@ == map_of(pairs.deep_view()),
            distinct_keys(m.pairs()),
    {
        let ghost all = pairs.deep_view();
        let mut rest = pairs;
        let mut turned: Vec<(String, V)> = Vec::new();
        while rest.len() > 0
            invariant
                rest.deep_view() + turned.deep_view().reverse() =~= all,
            decreases rest.len(),
        {
            let ghost r0 = rest.deep_view();
            let ghost t0 = turned.deep_view();
            let last = rest.pop().unwrap();
            turned.push(last);
            assert(turned.deep_view() =~= t0.push(r0.last()));
            assert(rest.deep_view() =~= r0.drop_last());
        }
        let mut m = Self::new();
        assert(all.take(0) =~= Seq::empty());
        while turned.len() > 0
            invariant
                turned.deep_view().len() <= all.len(),
                turned.deep_view().reverse() =~= all.skip(all.len() - turned.deep_view().len()),
                m.pairs() == put_all(all.take(all.len() - turned.deep_view().len())),
                m@ == map_of(all.take(all.len() - turned.deep_view().len())),
            decreases turned.len(),
        {
            let ghost t0 = turned.deep_view();
            let ghost at = all.len() - t0.len();
            let next = turned.pop().unwrap();
            assert(turned.deep_view() =~= t0.drop_last());
            assert(next.deep_view() == t0.last());
            assert(t0.last() == t0.reverse()[0]);
            assert(all.take(at + 1).drop_last() =~= all.take(at));
            assert(all.take(at + 1).last() == all[at]);
            assert(t0.drop_last().reverse() =~= t0.reverse().drop_first());
            assert(all.skip(at).drop_first() =~= all.skip(at + 1));
            m.insert(next.0, next.1);
        }
        proof {
            use_type_invariant(&m);
            assert(all.take(all.len() as int) =~= all);
        }
        m
    }
}

} // verus!
