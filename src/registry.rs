use vstd::prelude::*;

verus! {

/// The open documents, keyed by document id. At most one entry per id.
///
/// The entries sit in a `Vec` searched by id, with a ghost `Map` as their
/// meaning: vstd specifies a `HashMap` with a `String` key too loosely to prove
/// that a lookup finds what was stored, and a registry holds few documents.
pub struct DocRegistry<D> {
    entries: Vec<(String, D)>,
    map: Ghost<Map<Seq<char>, D>>,
}

/// What one get-or-create on `id` does: if `before` holds `id` nothing is
/// created and nothing changes; otherwise one new document is stored under `id`.
pub open spec fn get_or_create_step<D>(
    before: Map<Seq<char>, D>,
    id: Seq<char>,
    after: Map<Seq<char>, D>,
    created: bool,
) -> bool {
    &&& created == !before.contains_key(id)
    &&& !created ==> after == before
    &&& created ==> after == before.insert(id, after[id])
}

impl<D> DocRegistry<D> {
    pub closed spec fn view(&self) -> Map<Seq<char>, D> {
        self.map@
    }

    pub closed spec fn wf(&self) -> bool {
        &&& forall|i: int| 0 <= i < self.entries@.len() ==> {
            &&& self.map@.contains_key(#[trigger] self.entries@[i].0@)
            &&& self.map@[self.entries@[i].0@] == self.entries@[i].1
        }
        &&& forall|k: Seq<char>| #[trigger] self.map@.contains_key(k) ==> exists|i: int|
            0 <= i < self.entries@.len() && #[trigger] self.entries@[i].0@ == k
    }

    /// An empty registry.
    pub fn new() -> (r: Self)
        ensures
            r.wf(),
            r@ == Map::<Seq<char>, D>::empty(),
    {
        DocRegistry { entries: Vec::new(), map: Ghost(Map::empty()) }
    }

    fn find(&self, id: &String) -> (r: Option<usize>)
        requires
            self.wf(),
        ensures
            r is None <==> !self@.contains_key(id@),
            r matches Some(i) ==> i < self.entries@.len() && self.entries@[i as int].0@ == id@,
    {
        let mut i: usize = 0;
        while i < self.entries.len()
            invariant
                self.wf(),
                i <= self.entries@.len(),
                forall|j: int| 0 <= j < i ==> self.entries@[j].0@ != id@,
            decreases self.entries@.len() - i,
        {
            if self.entries[i].0 == *id {
                return Some(i);
            }
            i = i + 1;
        }
        proof {
            if self@.contains_key(id@) {
                let j = choose|j: int| 0 <= j < self.entries@.len() && #[trigger] self.entries@[j].0@ == id@;
                assert(self.entries@[j].0@ == id@);
            }
        }
        None
    }

    /// The document stored under `id`, if any.
    pub fn get(&self, id: &str) -> (r: Option<&D>)
        requires
            self.wf(),
        ensures
            r is None <==> !self@.contains_key(id@),
            r matches Some(d) ==> *d == self@[id@],
    {
        let key = id.to_owned();
        match self.find(&key) {
            Some(i) => Some(&self.entries[i].1),
            None => None,
        }
    }

    /// Returns whether a document is stored under `id`; if none is, stores the
    /// one that `make` builds. `make` runs only when `id` is new, so at most one
    /// document is ever created per id.
    pub fn get_or_insert_with<F: FnOnce() -> D>(&mut self, id: &str, make: F) -> (created: bool)
        requires
            old(self).wf(),
            make.requires(()),
        ensures
            final(self).wf(),
            get_or_create_step(old(self)@, id@, final(self)@, created),
            created ==> make.ensures((), final(self)@[id@]),
    {
        let key = id.to_owned();
        match self.find(&key) {
            Some(_) => false,
            None => {
                let d = make();
                let ghost dv = d;
                self.entries.push((key, d));
                proof {
                    self.map@ = self.map@.insert(id@, dv);
                    let n = self.entries@.len() - 1;
                    assert(self.entries@[n].0@ == id@);
                    assert forall|k: Seq<char>| #[trigger] self.map@.contains_key(k) implies exists|i: int|
                        0 <= i < self.entries@.len() && #[trigger] self.entries@[i].0@ == k by {
                        if k == id@ {
                            assert(self.entries@[n].0@ == k);
                        } else {
                            assert(old(self).map@.contains_key(k));
                            let i = choose|i: int| 0 <= i < old(self).entries@.len() && #[trigger] old(self).entries@[i].0@ == k;
                            assert(self.entries@[i].0@ == k);
                        }
                    }
                    assert(self.map@ == old(self).map@.insert(id@, self.map@[id@]));
                }
                true
            },
        }
    }
}

/// Any run of get-or-create calls on one id, one after another (as the
/// registry's lock orders concurrent callers), creates at most one document,
/// and after the first call every caller sees the same document.
pub proof fn lemma_get_or_create_runs_once<D>(
    states: Seq<Map<Seq<char>, D>>,
    created: Seq<bool>,
    id: Seq<char>,
)
    requires
        states.len() == created.len() + 1,
        forall|i: int| 0 <= i < created.len() ==> get_or_create_step(
            #[trigger] states[i], id, states[i + 1], created[i]),
    ensures
        forall|i: int, j: int| 0 <= i < created.len() && 0 <= j < created.len()
            && #[trigger] created[i] && #[trigger] created[j] ==> i == j,
        forall|i: int| 1 <= i < states.len() ==> {
            &&& (#[trigger] states[i]).contains_key(id)
            &&& states[i][id] == states[1][id]
        },
    decreases created.len(),
{
    if created.len() > 1 {
        let n = created.len() - 1;
        lemma_get_or_create_runs_once(states.drop_last(), created.drop_last(), id);
        assert(get_or_create_step(states[n], id, states[n + 1], created[n]));
        assert(states.drop_last()[n] == states[n]);
        assert(states[n].contains_key(id));
        assert forall|i: int, j: int| 0 <= i < created.len() && 0 <= j < created.len()
            && #[trigger] created[i] && #[trigger] created[j] implies i == j by {
            if i < n && j < n {
                assert(created.drop_last()[i] && created.drop_last()[j]);
            }
        }
        assert forall|i: int| 1 <= i < states.len() implies {
            &&& (#[trigger] states[i]).contains_key(id)
            &&& states[i][id] == states[1][id]
        } by {
            if i < states.len() - 1 {
                assert(states.drop_last()[i] == states[i]);
            }
        }
    } else if created.len() == 1 {
        assert(get_or_create_step(states[0], id, states[1], created[0]));
        if created[0] {
            assert(states[1] == states[0].insert(id, states[1][id]));
        }
    }
}

} // verus!
