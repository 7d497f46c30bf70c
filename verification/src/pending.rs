//! The table of calls that wait for a response, keyed by call id.
use vstd::prelude::*;

verus! {

/// The map that entries `s` stand for: each id to the value stored with it.
pub open spec fn map_of<S>(s: Seq<(String, S)>) -> Map<Seq<char>, S>
    decreases s.len(),
{
    if s.len() == 0 {
        Map::empty()
    } else {
        map_of(s.drop_last()).insert(s.last().0@, s.last().1)
    }
}

/// No two entries share an id.
pub open spec fn ids_distinct<S>(s: Seq<(String, S)>) -> bool {
    forall|i: int, j: int| 0 <= i < s.len() && 0 <= j < s.len() && i != j ==> #[trigger] s[i].0@ != #[trigger] s[j].0@
}

/// The map of entries with distinct ids holds exactly their ids, each with
/// its own value.
pub proof fn lemma_map_of<S>(s: Seq<(String, S)>)
    requires
        ids_distinct(s),
    ensures
        forall|k: Seq<char>| #[trigger] map_of(s).contains_key(k) <==> exists|i: int| 0 <= i < s.len() && s[i].0@ == k,
        forall|i: int| 0 <= i < s.len() ==> #[trigger] map_of(s)[s[i].0@] == s[i].1,
        map_of(s).dom().finite(),
        map_of(s).dom().len() == s.len(),
    decreases s.len(),
{
    if s.len() > 0 {
        let r = s.drop_last();
        assert(ids_distinct(r));
        lemma_map_of(r);
        assert forall|k: Seq<char>| #[trigger] map_of(s).contains_key(k) <==> exists|i: int| 0 <= i < s.len() && s[i].0@ == k by {
            if map_of(s).contains_key(k) && k != s.last().0@ {
                let i = choose|i: int| 0 <= i < r.len() && r[i].0@ == k;
                assert(s[i] == r[i]);
            }
            if exists|i: int| 0 <= i < s.len() && s[i].0@ == k {
                let i = choose|i: int| 0 <= i < s.len() && s[i].0@ == k;
                if i < s.len() - 1 {
                    assert(s[i] == r[i]);
                }
            }
        }
        assert forall|i: int| 0 <= i < s.len() implies #[trigger] map_of(s)[s[i].0@] == s[i].1 by {
            if i < s.len() - 1 {
                assert(s[i] == r[i]);
                assert(s[i].0@ != s[s.len() - 1].0@);
            }
        }
        assert(!map_of(r).contains_key(s.last().0@)) by {
            if map_of(r).contains_key(s.last().0@) {
                let i = choose|i: int| 0 <= i < r.len() && r[i].0@ == s.last().0@;
                assert(s[i] == r[i]);
                assert(s[i].0@ != s[s.len() - 1].0@);
            }
        }
    }
}

/// Removing the entry at `i` removes its id from the map.
pub proof fn lemma_map_of_remove<S>(s: Seq<(String, S)>, i: int)
    requires
        ids_distinct(s),
        0 <= i < s.len(),
    ensures
        ids_distinct(s.remove(i)),
        map_of(s.remove(i)) == map_of(s).remove(s[i].0@),
{
    let t = s.remove(i);
    assert forall|a: int, b: int| 0 <= a < t.len() && 0 <= b < t.len() && a != b implies #[trigger] t[a].0@ != #[trigger] t[b].0@ by {
        let a2 = if a < i { a } else { a + 1 };
        let b2 = if b < i { b } else { b + 1 };
        assert(t[a] == s[a2]);
        assert(t[b] == s[b2]);
    }
    lemma_map_of(s);
    lemma_map_of(t);
    assert forall|k: Seq<char>| #[trigger] map_of(t).contains_key(k) <==> map_of(s).remove(s[i].0@).contains_key(k) by {
        if map_of(t).contains_key(k) {
            let a = choose|a: int| 0 <= a < t.len() && t[a].0@ == k;
            let a2 = if a < i { a } else { a + 1 };
            assert(t[a] == s[a2]);
        }
        if map_of(s).remove(s[i].0@).contains_key(k) {
            let a = choose|a: int| 0 <= a < s.len() && s[a].0@ == k;
            assert(a != i);
            let a2 = if a < i { a } else { a - 1 };
            assert(t[a2] == s[a]);
        }
    }
    assert forall|k: Seq<char>| map_of(t).contains_key(k) implies #[trigger] map_of(t)[k] == map_of(s).remove(s[i].0@)[k] by {
        let a = choose|a: int| 0 <= a < t.len() && t[a].0@ == k;
        let a2 = if a < i { a } else { a + 1 };
        assert(t[a] == s[a2]);
    }
    assert(map_of(t) =~= map_of(s).remove(s[i].0@));
}

/// Calls that wait for a response, each with the value that delivers it.
pub struct PendingTable<S> {
    entries: Vec<(String, S)>,
}

impl<S> PendingTable<S> {
    #[verifier::type_invariant]
    spec fn distinct(self) -> bool {
        ids_distinct(self.entries@)
    }

    /// The waiting calls: each id to the value that delivers its response.
    pub closed spec fn spec_map(self) -> Map<Seq<char>, S> {
        map_of(self.entries@)
    }

    /// An empty table.
    pub fn new() -> (t: PendingTable<S>)
        ensures
            t.spec_map() == Map::<Seq<char>, S>::empty(),
    {
        PendingTable { entries: Vec::new() }
    }

    /// Whether a call with this id waits.
    pub fn contains(&self, id: &String) -> (b: bool)
        ensures
            b == self.spec_map().contains_key(id@),
    {
        proof {
            use_type_invariant(self);
            lemma_map_of(self.entries@);
        }
        position(&self.entries, id).is_some()
    }

    /// The number of waiting calls.
    pub fn len(&self) -> (n: usize)
        ensures
            n == self.spec_map().dom().len(),
    {
        proof {
            use_type_invariant(self);
            lemma_map_of(self.entries@);
        }
        self.entries.len()
    }

    /// The value waiting under `id`, if any.
    pub fn get(&self, id: &String) -> (r: Option<&S>)
        ensures
            match r {
                Some(v) => self.spec_map().contains_key(id@) && self.spec_map()[id@] == *v,
                None => !self.spec_map().contains_key(id@),
            },
    {
        proof {
            use_type_invariant(self);
            lemma_map_of(self.entries@);
        }
        match position(&self.entries, id) {
            Some(i) => Some(&self.entries[i].1),
            None => None,
        }
    }

    /// Records a waiting call; a call already waiting under `id` is replaced
    /// and handed back.
    pub fn insert(&mut self, id: String, value: S) -> (old_value: Option<S>)
        ensures
            final(self).spec_map() == old(self).spec_map().insert(id@, value),
            match old_value {
                Some(v) => old(self).spec_map().contains_key(id@) && old(self).spec_map()[id@] == v,
                None => !old(self).spec_map().contains_key(id@),
            },
    {
        proof {
            use_type_invariant(&*self);
            lemma_map_of(self.entries@);
        }
        let mut entries: Vec<(String, S)> = Vec::new();
        std::mem::swap(&mut entries, &mut self.entries);
        let ghost s = entries@;
        match position(&entries, &id) {
            Some(i) => {
                let (_k, v) = entries.remove(i);
                proof {
                    lemma_map_of_remove(s, i as int);
                    lemma_push_fresh(s.remove(i as int), id, value);
                    assert(map_of(s)[id@] == v);
                    assert(map_of(s).remove(id@).insert(id@, value) =~= map_of(s).insert(id@, value));
                }
                entries.push((id, value));
                self.entries = entries;
                Some(v)
            },
            None => {
                proof {
                    lemma_push_fresh(s, id, value);
                }
                entries.push((id, value));
                self.entries = entries;
                None
            },
        }
    }

    /// Takes the call waiting under `id` out of the table.
    pub fn remove(&mut self, id: &String) -> (r: Option<S>)
        ensures
            final(self).spec_map() == old(self).spec_map().remove(id@),
            match r {
                Some(v) => old(self).spec_map().contains_key(id@) && old(self).spec_map()[id@] == v,
                None => !old(self).spec_map().contains_key(id@),
            },
    {
        proof {
            use_type_invariant(&*self);
            lemma_map_of(self.entries@);
        }
        let mut entries: Vec<(String, S)> = Vec::new();
        std::mem::swap(&mut entries, &mut self.entries);
        let ghost s = entries@;
        match position(&entries, id) {
            Some(i) => {
                let (_k, v) = entries.remove(i);
                proof {
                    lemma_map_of_remove(s, i as int);
                }
                self.entries = entries;
                Some(v)
            },
            None => {
                proof {
                    assert(map_of(s).remove(id@) =~= map_of(s));
                }
                self.entries = entries;
                None
            },
        }
    }

    /// Empties the table and hands back every waiting call, each once.
    pub fn drain(&mut self) -> (out: Vec<(String, S)>)
        ensures
            final(self).spec_map() == Map::<Seq<char>, S>::empty(),
            ids_distinct(out@),
            map_of(out@) == old(self).spec_map(),
    {
        proof {
            use_type_invariant(&*self);
        }
        let mut entries: Vec<(String, S)> = Vec::new();
        std::mem::swap(&mut entries, &mut self.entries);
        entries
    }
}

fn position<S>(entries: &Vec<(String, S)>, id: &String) -> (r: Option<usize>)
    ensures
        match r {
            Some(i) => i < entries@.len() && entries@[i as int].0@ == id@,
            None => forall|j: int| 0 <= j < entries@.len() ==> #[trigger] entries@[j].0@ != id@,
        },
{
    let mut i: usize = 0;
    while i < entries.len()
        invariant
            0 <= i <= entries@.len(),
            forall|j: int| 0 <= j < i ==> #[trigger] entries@[j].0@ != id@,
        decreases entries@.len() - i,
    {
        if entries[i].0 == *id {
            return Some(i);
        }
        i = i + 1;
    }
    None
}

/// Adding an entry under a fresh id keeps ids distinct and adds it to the map.
pub proof fn lemma_push_fresh<S>(s: Seq<(String, S)>, id: String, value: S)
    requires
        ids_distinct(s),
        forall|j: int| 0 <= j < s.len() ==> #[trigger] s[j].0@ != id@,
    ensures
        ids_distinct(s.push((id, value))),
        map_of(s.push((id, value))) == map_of(s).insert(id@, value),
{
    let t = s.push((id, value));
    assert(t.drop_last() =~= s);
    assert forall|a: int, b: int| 0 <= a < t.len() && 0 <= b < t.len() && a != b implies #[trigger] t[a].0@ != #[trigger] t[b].0@ by {
        if a < s.len() && b < s.len() {
            assert(t[a] == s[a] && t[b] == s[b]);
        } else if a < s.len() {
            assert(t[a] == s[a]);
        } else {
            assert(t[b] == s[b]);
        }
    }
}

} // verus!
