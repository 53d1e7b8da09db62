use vstd::prelude::*;

use crate::funding::{Funding, FundingView};

verus! {

/// The store of funding records, keyed by account identifier. It is owned by
/// the engine that uses it: each key holds at most one record, and inserting
/// under a key that is present replaces that record.
pub struct Ledger {
    keys: Vec<String>,
    records: Vec<Funding>,
    contents: Ghost<Map<Seq<char>, FundingView>>,
}

impl View for Ledger {
    type V = Map<Seq<char>, FundingView>;

    closed spec fn view(&self) -> Map<Seq<char>, FundingView> {
        self.contents@
    }
}

impl Ledger {
    /// Keys are unique, and the stored pairs are exactly the entries of the view.
    pub closed spec fn well_formed(&self) -> bool {
        &&& self.keys.len() == self.records.len()
        &&& forall|i: int, j: int|
            0 <= i < j < self.keys.len() ==> #[trigger] self.keys[i]@ != #[trigger] self.keys[j]@
        &&& forall|i: int|
            0 <= i < self.keys.len() ==> {
                &&& self.contents@.contains_key(#[trigger] self.keys[i]@)
                &&& self.contents@[self.keys[i]@] == self.records[i]@
            }
        &&& forall|k: Seq<char>|
            #[trigger] self.contents@.contains_key(k) ==> exists|i: int|
                0 <= i < self.keys.len() && #[trigger] self.keys[i]@ == k
    }

    /// An empty store.
    pub fn new() -> (r: Ledger)
        ensures
            r.well_formed(),
            r@ == Map::<Seq<char>, FundingView>::empty(),
    {
        Ledger { keys: Vec::new(), records: Vec::new(), contents: Ghost(Map::empty()) }
    }

    /// The position of `key` among the stored keys, if it is there.
    fn position(&self, key: &String) -> (r: Option<usize>)
        requires
            self.well_formed(),
        ensures
            match r {
                Some(i) => i < self.keys.len() && self.keys[i as int]@ == key@,
                None => !self@.contains_key(key@),
            },
    {
        let mut i: usize = 0;
        while i < self.keys.len()
            invariant
                i <= self.keys.len(),
                forall|j: int| 0 <= j < i ==> self.keys[j]@ != key@,
            decreases self.keys.len() - i,
        {
            if self.keys[i] == *key {
                return Some(i);
            }
            i = i + 1;
        }
        None
    }

    /// Whether a record is stored under `key`.
    pub fn contains(&self, key: &String) -> (r: bool)
        requires
            self.well_formed(),
        ensures
            r == self@.contains_key(key@),
    {
        self.position(key).is_some()
    }

    /// A copy of the record stored under `key`, or `None` when there is none.
    pub fn get(&self, key: &String) -> (r: Option<Funding>)
        requires
            self.well_formed(),
        ensures
            match r {
                Some(f) => self@.contains_key(key@) && f@ == self@[key@],
                None => !self@.contains_key(key@),
            },
    {
        match self.position(key) {
            Some(i) => Some(self.records[i].duplicate()),
            None => None,
        }
    }

    /// Stores `value` under `key`, replacing any record already there.
    pub fn insert(&mut self, key: &String, value: &Funding)
        requires
            old(self).well_formed(),
        ensures
            final(self).well_formed(),
            final(self)@ == old(self)@.insert(key@, value@),
    {
        let record = value.duplicate();
        match self.position(key) {
            Some(i) => {
                let ghost before = self.contents@;
                self.records.set(i, record);
                proof {
                    self.contents@ = before.insert(key@, value@);
                    assert forall|k: Seq<char>| #[trigger] self.contents@.contains_key(k) implies
                        exists|j: int| 0 <= j < self.keys.len() && #[trigger] self.keys[j]@ == k by {
                        if k == key@ {
                            assert(self.keys[i as int]@ == k);
                        } else {
                            assert(before.contains_key(k));
                            let j = choose|j: int| 0 <= j < self.keys.len() && #[trigger] self.keys[j]@ == k;
                            assert(self.keys[j]@ == k);
                        }
                    }
                }
            },
            None => {
                let ghost before = self.contents@;
                let ghost old_keys = self.keys@;
                self.keys.push(key.clone());
                self.records.push(record);
                proof {
                    self.contents@ = before.insert(key@, value@);
                    assert forall|j: int| 0 <= j < old_keys.len() implies
                        #[trigger] old_keys[j]@ != key@ by {
                        assert(before.contains_key(old_keys[j]@));
                    }
                    assert(self.keys[old_keys.len() as int]@ == key@);
                    assert forall|k: Seq<char>| #[trigger] self.contents@.contains_key(k) implies
                        exists|j: int| 0 <= j < self.keys.len() && #[trigger] self.keys[j]@ == k by {
                        if k == key@ {
                            assert(self.keys[old_keys.len() as int]@ == k);
                        } else {
                            assert(before.contains_key(k));
                            let j = choose|j: int| 0 <= j < old_keys.len() && #[trigger] old_keys[j]@ == k;
                            assert(self.keys[j]@ == k);
                        }
                    }
                }
            },
        }
    }
}

} // verus!
