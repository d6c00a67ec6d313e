use vstd::prelude::*;

verus! {

/// One token record: who holds it, what it describes, how many units are left
/// and what it costs.
#[derive(Clone, Debug, PartialEq, Eq)]
pub struct Flower {
    pub token_id: String,
    pub owner: String,
    pub title: String,
    pub description: String,
    pub media: String,
    pub total_nfts: i32,
    pub price: i32,
}

/// The abstract store: identifier to record.
pub type Records = Map<Seq<char>, Flower>;

/// Every record is stored under its own identifier.
pub open spec fn keyed_by_id(m: Records) -> bool {
    forall|k: Seq<char>| #[trigger] m.contains_key(k) ==> m[k].token_id@ == k
}

/// A field-by-field copy of a record.
fn copy_flower(f: &Flower) -> (r: Flower)
    ensures
        r == *f,
{
    Flower {
        token_id: f.token_id.clone(),
        owner: f.owner.clone(),
        title: f.title.clone(),
        description: f.description.clone(),
        media: f.media.clone(),
        total_nfts: f.total_nfts,
        price: f.price,
    }
}

/// The record store: at most one record per identifier, records never removed.
pub struct Registry {
    records: Vec<Flower>,
    model: Ghost<Records>,
}

impl View for Registry {
    type V = Records;

    closed spec fn view(&self) -> Records {
        self.model@
    }
}

impl Registry {
    /// The stored vector holds distinct identifiers and agrees with the model.
    pub closed spec fn wf(&self) -> bool {
        &&& forall|i: int, j: int|
            0 <= i < j < self.records@.len() ==> self.records@[i].token_id@
                != self.records@[j].token_id@
        &&& forall|i: int|
            0 <= i < self.records@.len() ==> {
                &&& #[trigger] self.model@.contains_key(self.records@[i].token_id@)
                &&& self.model@[self.records@[i].token_id@] == self.records@[i]
            }
        &&& forall|k: Seq<char>|
            #[trigger] self.model@.contains_key(k) ==> exists|i: int|
                0 <= i < self.records@.len() && #[trigger] self.records@[i].token_id@ == k
    }

    /// A well-formed store stores each record under its identifier.
    pub proof fn lemma_keyed(&self)
        requires
            self.wf(),
        ensures
            keyed_by_id(self@),
    {
        assert forall|k: Seq<char>| #[trigger] self@.contains_key(k) implies self@[k].token_id@
            == k by {
            let i = choose|i: int|
                0 <= i < self.records@.len() && #[trigger] self.records@[i].token_id@ == k;
            assert(self.model@.contains_key(self.records@[i].token_id@));
        }
    }

    /// An empty store.
    pub fn new() -> (r: Registry)
        ensures
            r.wf(),
            r@ == Map::<Seq<char>, Flower>::empty(),
    {
        Registry { records: Vec::new(), model: Ghost(Map::empty()) }
    }

    fn find(&self, id: &String) -> (r: Option<usize>)
        requires
            self.wf(),
        ensures
            match r {
                Some(i) => i < self.records@.len() && self.records@[i as int].token_id@ == id@,
                None => !self@.contains_key(id@),
            },
    {
        let mut i: usize = 0;
        while i < self.records.len()
            invariant
                self.wf(),
                i <= self.records@.len(),
                forall|j: int| 0 <= j < i ==> self.records@[j].token_id@ != id@,
            decreases self.records@.len() - i,
        {
            if self.records[i].token_id == *id {
                return Some(i);
            }
            i = i + 1;
        }
        proof {
            if self@.contains_key(id@) {
                let j = choose|j: int|
                    0 <= j < self.records@.len() && #[trigger] self.records@[j].token_id@ == id@;
                assert(self.records@[j].token_id@ == id@);
            }
        }
        None
    }

    /// The record stored under `id`, if any.
    pub fn load(&self, id: &String) -> (r: Option<Flower>)
        requires
            self.wf(),
        ensures
            r == self@.get(id@),
    {
        match self.find(id) {
            Some(i) => {
                assert(self.model@.contains_key(self.records@[i as int].token_id@));
                Some(copy_flower(&self.records[i]))
            },
            None => None,
        }
    }

    /// Whether a record is stored under `id`.
    pub fn contains(&self, id: &String) -> (r: bool)
        requires
            self.wf(),
        ensures
            r == self@.contains_key(id@),
    {
        match self.find(id) {
            Some(i) => {
                assert(self.model@.contains_key(self.records@[i as int].token_id@));
                true
            },
            None => false,
        }
    }

    /// Stores `f` under its identifier, replacing any record stored there.
    pub fn save(&mut self, f: Flower)
        requires
            old(self).wf(),
        ensures
            final(self).wf(),
            final(self)@ == old(self)@.insert(f.token_id@, f),
    {
        let ghost key = f.token_id@;
        let ghost m = self.model@.insert(key, f);
        match self.find(&f.token_id) {
            Some(i) => {
                let ghost old_records = self.records@;
                self.records.set(i, f);
                self.model = Ghost(m);
                assert forall|k: Seq<char>| #[trigger] self.model@.contains_key(k) implies exists|
                    j: int,
                | 0 <= j < self.records@.len() && #[trigger] self.records@[j].token_id@ == k by {
                    if k != key {
                        let j = choose|j: int|
                            0 <= j < old_records.len() && #[trigger] old_records[j].token_id@ == k;
                        assert(self.records@[j].token_id@ == k);
                    } else {
                        assert(self.records@[i as int].token_id@ == k);
                    }
                }
            },
            None => {
                let ghost old_records = self.records@;
                self.records.push(f);
                self.model = Ghost(m);
                assert forall|k: Seq<char>| #[trigger] self.model@.contains_key(k) implies exists|
                    j: int,
                | 0 <= j < self.records@.len() && #[trigger] self.records@[j].token_id@ == k by {
                    if k != key {
                        let j = choose|j: int|
                            0 <= j < old_records.len() && #[trigger] old_records[j].token_id@ == k;
                        assert(self.records@[j].token_id@ == k);
                    } else {
                        assert(self.records@[old_records.len() as int].token_id@ == k);
                    }
                }
            },
        }
    }
}

} // verus!
