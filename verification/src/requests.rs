use vstd::prelude::*;
use vstd::string::*;

verus! {

/// One pending or answered request: its name, the answer received so far,
/// and whether the answer is complete.
#[derive(Debug)]
pub struct RequestEntry {
    key: String,
    response: String,
    done: bool,
}

/// The requests that the background tasks wait on, by name. Each name
/// occurs once.
#[derive(Debug)]
pub struct RequestTable {
    entries: Vec<RequestEntry>,
}

impl View for RequestTable {
    type V = Map<Seq<char>, (Seq<char>, bool)>;

    /// The names and their values.
    closed spec fn view(&self) -> Map<Seq<char>, (Seq<char>, bool)> {
        Map::new(
            |k: Seq<char>| exists|i: int| 0 <= i < self.entries@.len() && #[trigger] self.entries@[i].key@ == k,
            |k: Seq<char>|
                {
                    let i = choose|i: int| 0 <= i < self.entries@.len() && #[trigger] self.entries@[i].key@ == k;
                    (self.entries@[i].response@, self.entries@[i].done)
                },
        )
    }
}

impl RequestTable {
    #[verifier::type_invariant]
    spec fn keys_distinct(self) -> bool {
        forall|i: int, j: int|
            0 <= i < j < self.entries@.len() ==> #[trigger] self.entries@[i].key@
                != #[trigger] self.entries@[j].key@
    }

    /// An empty table.
    pub fn new() -> (r: Self)
        ensures
            r@ == Map::<Seq<char>, (Seq<char>, bool)>::empty(),
    {
        let r = RequestTable { entries: Vec::new() };
        assert(r@ =~= Map::<Seq<char>, (Seq<char>, bool)>::empty());
        r
    }

    /// Where the name `key` stands, if it stands anywhere.
    fn find(&self, key: &String) -> (r: Option<usize>)
        ensures
            match r {
                Some(i) => i < self.entries@.len() && self.entries@[i as int].key@ == key@,
                None => forall|i: int| 0 <= i < self.entries@.len() ==> #[trigger] self.entries@[i].key@ != key@,
            },
    {
        let mut i: usize = 0;
        while i < self.entries.len()
            invariant
                i <= self.entries@.len(),
                forall|j: int| 0 <= j < i ==> #[trigger] self.entries@[j].key@ != key@,
            decreases self.entries@.len() - i,
        {
            if self.entries[i].key == *key {
                return Some(i);
            }
            i = i + 1;
        }
        None
    }

    proof fn lemma_value_at(&self, i: int)
        requires
            self.keys_distinct(),
            0 <= i < self.entries@.len(),
        ensures
            self@.contains_key(self.entries@[i].key@),
            self@[self.entries@[i].key@] == (self.entries@[i].response@, self.entries@[i].done),
    {
        let k = self.entries@[i].key@;
        assert(self.entries@[i].key@ == k);
        let j = choose|j: int| 0 <= j < self.entries@.len() && #[trigger] self.entries@[j].key@ == k;
        if j < i {
            assert(self.entries@[j].key@ != self.entries@[i].key@);
        } else if i < j {
            assert(self.entries@[i].key@ != self.entries@[j].key@);
        }
    }

    /// Whether the table holds the name `key`.
    pub fn contains_key(&self, key: &str) -> (r: bool)
        ensures
            r == self@.contains_key(key@),
    {
        let k = String::from_str(key);
        match self.find(&k) {
            Some(i) => {
                proof {
                    use_type_invariant(self);
                    self.lemma_value_at(i as int);
                }
                true
            },
            None => false,
        }
    }

    /// The value of the name `key`, if the table holds it.
    pub fn get(&self, key: &str) -> (r: Option<(String, bool)>)
        ensures
            match r {
                Some((response, done)) => self@.contains_key(key@) && self@[key@] == (
                response@,
                done,
                ),
                None => !self@.contains_key(key@),
            },
    {
        let k = String::from_str(key);
        match self.find(&k) {
            Some(i) => {
                proof {
                    use_type_invariant(self);
                    self.lemma_value_at(i as int);
                }
                Some((self.entries[i].response.clone(), self.entries[i].done))
            },
            None => None,
        }
    }

    /// Gives the name `key` the value (`response`, `done`), in place of the
    /// value it had, if any.
    pub fn insert(&mut self, key: String, response: String, done: bool)
        ensures
            final(self)@ == old(self)@.insert(key@, (response@, done)),
    {
        proof {
            use_type_invariant(&*self);
        }
        let ghost old_self = *self;
        let ghost k = key@;
        let ghost v = (response@, done);
        match self.find(&key) {
            Some(i) => {
                let mut entries: Vec<RequestEntry> = Vec::new();
                std::mem::swap(&mut entries, &mut self.entries);
                entries.set(i, RequestEntry { key, response, done });
                self.entries = entries;
                proof {
                    assert(self.keys_distinct());
                    assert forall|k2: Seq<char>|
                        #![trigger self@.dom().contains(k2)]
                        #![trigger old_self@.insert(k, v).dom().contains(k2)]
                        (self@.dom().contains(k2) <==> old_self@.insert(k, v).dom().contains(k2))
                        && (self@.dom().contains(k2) ==> self@[k2] == old_self@.insert(k, v)[k2]) by {
                        if k2 == k {
                            self.lemma_value_at(i as int);
                        } else {
                            if old_self@.contains_key(k2) {
                                let j = choose|j: int| 0 <= j < old_self.entries@.len() && #[trigger] old_self.entries@[j].key@ == k2;
                                old_self.lemma_value_at(j);
                                self.lemma_value_at(j);
                            }
                            if self@.contains_key(k2) {
                                let j = choose|j: int| 0 <= j < self.entries@.len() && #[trigger] self.entries@[j].key@ == k2;
                                assert(old_self.entries@[j].key@ == k2);
                            }
                        }
                    }
                    assert(self@ =~= old_self@.insert(k, v));
                }
            },
            None => {
                let mut entries: Vec<RequestEntry> = Vec::new();
                std::mem::swap(&mut entries, &mut self.entries);
                entries.push(RequestEntry { key, response, done });
                self.entries = entries;
                proof {
                    let n = old_self.entries@.len();
                    assert(self.keys_distinct());
                    assert forall|k2: Seq<char>|
                        #![trigger self@.dom().contains(k2)]
                        #![trigger old_self@.insert(k, v).dom().contains(k2)]
                        (self@.dom().contains(k2) <==> old_self@.insert(k, v).dom().contains(k2))
                        && (self@.dom().contains(k2) ==> self@[k2] == old_self@.insert(k, v)[k2]) by {
                        if k2 == k {
                            self.lemma_value_at(n as int);
                        } else {
                            if old_self@.contains_key(k2) {
                                let j = choose|j: int| 0 <= j < old_self.entries@.len() && #[trigger] old_self.entries@[j].key@ == k2;
                                old_self.lemma_value_at(j);
                                self.lemma_value_at(j);
                            }
                            if self@.contains_key(k2) {
                                let j = choose|j: int| 0 <= j < self.entries@.len() && #[trigger] self.entries@[j].key@ == k2;
                                assert(j != n);
                                assert(old_self.entries@[j].key@ == k2);
                            }
                        }
                    }
                    assert(self@ =~= old_self@.insert(k, v));
                }
            },
        }
    }
}

} // verus!
