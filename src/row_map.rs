//! The mapping from column name to JSON value that one row becomes.
use vstd::prelude::*;

use crate::json::{JsonModel, JsonValue};

verus! {

/// The mapping that a sequence of (name, value) pairs builds when inserted in
/// order: a later pair overwrites an earlier one with the same name.
pub open spec fn map_of(pairs: Seq<(String, JsonValue)>) -> Map<Seq<char>, JsonModel>
    decreases pairs.len(),
{
    if pairs.len() == 0 {
        Map::empty()
    } else {
        map_of(pairs.drop_last()).insert(pairs.last().0@, pairs.last().1@)
    }
}

/// No two pairs share a name.
pub open spec fn names_unique(pairs: Seq<(String, JsonValue)>) -> bool {
    forall|i: int, j: int| 0 <= i < j < pairs.len() ==> pairs[i].0@ != pairs[j].0@
}

proof fn lemma_map_of_overwrite(pairs: Seq<(String, JsonValue)>, i: int, p: (String, JsonValue))
    requires
        names_unique(pairs),
        0 <= i < pairs.len(),
        pairs[i].0@ == p.0@,
    ensures
        map_of(pairs.update(i, p)) == map_of(pairs).insert(p.0@, p.1@),
    decreases pairs.len(),
{
    let up = pairs.update(i, p);
    let last = pairs.len() - 1;
    if i == last {
        assert(up.drop_last() =~= pairs.drop_last());
        assert(map_of(up) =~= map_of(pairs).insert(p.0@, p.1@));
    } else {
        assert(up.drop_last() =~= pairs.drop_last().update(i, p));
        lemma_map_of_overwrite(pairs.drop_last(), i, p);
        assert(pairs[last].0@ != p.0@);
        assert(map_of(up) =~= map_of(pairs).insert(p.0@, p.1@));
    }
}

proof fn lemma_map_of_key(pairs: Seq<(String, JsonValue)>, k: Seq<char>)
    requires
        names_unique(pairs),
    ensures
        map_of(pairs).contains_key(k) <==> exists|i: int| 0 <= i < pairs.len() && pairs[i].0@ == k,
        forall|i: int|
            0 <= i < pairs.len() && pairs[i].0@ == k ==> map_of(pairs)[k] == pairs[i].1@,
    decreases pairs.len(),
{
    if pairs.len() > 0 {
        let init = pairs.drop_last();
        lemma_map_of_key(init, k);
        assert forall|i: int| 0 <= i < init.len() implies init[i] == pairs[i] by {}
        if map_of(pairs).contains_key(k) && pairs.last().0@ != k {
            let i = choose|i: int| 0 <= i < init.len() && init[i].0@ == k;
            assert(pairs[i].0@ == k);
        }
    }
}

/// The JSON object of one row.
#[derive(Debug)]
pub struct RowMap {
    pairs: Vec<(String, JsonValue)>,
}

impl View for RowMap {
    type V = Map<Seq<char>, JsonModel>;

    closed spec fn view(&self) -> Map<Seq<char>, JsonModel> {
        map_of(self.pairs@)
    }
}

impl RowMap {
    /// Holds of every map this type hands out: no two entries share a name.
    pub closed spec fn wf(&self) -> bool {
        names_unique(self.pairs@)
    }

    /// An empty mapping.
    pub fn new() -> (r: RowMap)
        ensures
            r.wf(),
            r@ == Map::<Seq<char>, JsonModel>::empty(),
    {
        RowMap { pairs: Vec::new() }
    }

    /// Maps `key` to `value`, replacing what `key` mapped to before.
    pub fn insert(&mut self, key: String, value: JsonValue)
        requires
            old(self).wf(),
        ensures
            final(self).wf(),
            final(self)@ == old(self)@.insert(key@, value@),
    {
        let mut i: usize = 0;
        while i < self.pairs.len()
            invariant
                i <= self.pairs@.len(),
                self.pairs@ == old(self).pairs@,
                names_unique(self.pairs@),
                forall|j: int| 0 <= j < i ==> self.pairs@[j].0@ != key@,
            decreases self.pairs@.len() - i,
        {
            if self.pairs[i].0 == key {
                proof {
                    lemma_map_of_overwrite(self.pairs@, i as int, (key, value));
                }
                self.pairs.set(i, (key, value));
                return;
            }
            i = i + 1;
        }
        let ghost before = self.pairs@;
        self.pairs.push((key, value));
        assert(self.pairs@.drop_last() =~= before);
    }

    /// The value that `key` maps to.
    pub fn get(&self, key: &str) -> (r: Option<&JsonValue>)
        requires
            self.wf(),
        ensures
            match r {
                Some(v) => self@.contains_key(key@) && self@[key@] == v@,
                None => !self@.contains_key(key@),
            },
    {
        let k = String::from_str(key);
        let mut i: usize = 0;
        while i < self.pairs.len()
            invariant
                i <= self.pairs@.len(),
                k@ == key@,
                names_unique(self.pairs@),
                forall|j: int| 0 <= j < i ==> self.pairs@[j].0@ != key@,
            decreases self.pairs@.len() - i,
        {
            if self.pairs[i].0 == k {
                proof {
                    lemma_map_of_key(self.pairs@, key@);
                }
                return Some(&self.pairs[i].1);
            }
            i = i + 1;
        }
        proof {
            lemma_map_of_key(self.pairs@, key@);
        }
        None
    }

    /// The number of names mapped.
    pub fn len(&self) -> (r: usize)
        requires
            self.wf(),
        ensures
            r == self@.dom().len(),
    {
        proof {
            self.lemma_len(self.pairs@);
        }
        self.pairs.len()
    }

    proof fn lemma_len(&self, pairs: Seq<(String, JsonValue)>)
        requires
            names_unique(pairs),
        ensures
            map_of(pairs).dom().len() == pairs.len(),
            map_of(pairs).dom().finite(),
        decreases pairs.len(),
    {
        if pairs.len() > 0 {
            let init = pairs.drop_last();
            self.lemma_len(init);
            lemma_map_of_key(init, pairs.last().0@);
            assert(!map_of(init).contains_key(pairs.last().0@));
        }
    }

    /// Takes the entries out: one per name, in the order the names first
    /// came, making up the same mapping.
    pub fn into_entries(self) -> (r: Vec<(String, JsonValue)>)
        requires
            self.wf(),
        ensures
            names_unique(r@),
            map_of(r@) == self@,
    {
        self.pairs
    }
}

} // verus!
