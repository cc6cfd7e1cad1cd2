use std::sync::Arc;
use vstd::prelude::*;

verus! {

/// Relies on anyhow::Error only as an opaque error value that loading hands back.
#[verifier::external_type_specification]
#[verifier::external_body]
pub struct ExAnyhowError(anyhow::Error);

/// Something that can be read from the file at a path.
pub trait Loadable where Self: Sized {
    fn load(path: &String) -> Result<Self, anyhow::Error>;
}

/// Loads items by path, each path at most once: later requests for a path
/// share the item loaded first.
pub struct Loader<T: Loadable> {
    items: Vec<(String, Arc<T>)>,
}

impl<T: Loadable> View for Loader<T> {
    type V = Map<Seq<char>, Arc<T>>;

    closed spec fn view(&self) -> Map<Seq<char>, Arc<T>> {
        Map::new(
            |k: Seq<char>| exists|i: int| 0 <= i < self.items@.len() && (#[trigger] self.items@[i]).0@ == k,
            |k: Seq<char>|
                self.items@[choose|i: int|
                    0 <= i < self.items@.len() && (#[trigger] self.items@[i]).0@ == k].1,
        )
    }
}

impl<T: Loadable> Loader<T> {
    /// No path is loaded twice.
    pub closed spec fn wf(&self) -> bool {
        forall|i: int, j: int|
            0 <= i < j < self.items@.len() ==> (#[trigger] self.items@[i]).0@ != (#[trigger] self.items@[j]).0@
    }

    proof fn lemma_lookup(&self, i: int)
        requires
            self.wf(),
            0 <= i < self.items@.len(),
        ensures
            self@.contains_key(self.items@[i].0@),
            self@[self.items@[i].0@] == self.items@[i].1,
    {
        let k = self.items@[i].0@;
        assert(self@.contains_key(k));
        let c = choose|c: int| 0 <= c < self.items@.len() && (#[trigger] self.items@[c]).0@ == k;
        if c != i {
            if c < i {
                assert(self.items@[c].0@ != self.items@[i].0@);
            } else {
                assert(self.items@[i].0@ != self.items@[c].0@);
            }
        }
    }

    /// An empty loader.
    pub fn new() -> (r: Self)
        ensures
            r.wf(),
            r@ == Map::<Seq<char>, Arc<T>>::empty(),
    {
        let r = Loader { items: Vec::new() };
        assert(r@ =~= Map::<Seq<char>, Arc<T>>::empty());
        r
    }

    /// The item for `path`: the one already loaded if there is one, else the
    /// one that `T::load` reads, which is kept for later requests. A failed
    /// load keeps nothing.
    pub fn load(&mut self, path: &String) -> (r: Result<Arc<T>, anyhow::Error>)
        requires
            old(self).wf(),
        ensures
            final(self).wf(),
            old(self)@.contains_key(path@) ==> (r matches Ok(item) && item == old(self)@[path@]
                && final(self)@ == old(self)@),
            !old(self)@.contains_key(path@) ==> match r {
                Ok(item) => final(self)@ == old(self)@.insert(path@, item),
                Err(_) => final(self)@ == old(self)@,
            },
    {
        let mut i: usize = 0;
        while i < self.items.len()
            invariant
                self.wf(),
                i <= self.items@.len(),
                forall|j: int| 0 <= j < i ==> (#[trigger] self.items@[j]).0@ != path@,
            decreases self.items@.len() - i,
        {
            if self.items[i].0 == *path {
                proof {
                    self.lemma_lookup(i as int);
                }
                return Ok(self.items[i].1.clone());
            }
            i = i + 1;
        }
        let ghost before = self@;
        assert(!before.contains_key(path@));
        let item = Arc::new(T::load(path)?);
        let ghost old_items = self.items@;
        self.items.push((path.clone(), item.clone()));
        proof {
            assert forall|a: int, b: int|
                0 <= a < b < self.items@.len() implies (#[trigger] self.items@[a]).0@
                != (#[trigger] self.items@[b]).0@ by {
                if b < old_items.len() {
                    assert(old_items[a] == self.items@[a] && old_items[b] == self.items@[b]);
                } else {
                    assert(old_items[a] == self.items@[a]);
                    assert(self.items@[a].0@ != path@);
                }
            }
            assert forall|k: Seq<char>| #[trigger] self@.contains_key(k) <==> before.insert(
                path@,
                item,
            ).contains_key(k) by {
                if before.contains_key(k) {
                    let c = choose|c: int| 0 <= c < old_items.len() && (#[trigger] old_items[c]).0@ == k;
                    assert(self.items@[c] == old_items[c]);
                }
                if self@.contains_key(k) && k != path@ {
                    let c = choose|c: int| 0 <= c < self.items@.len() && (#[trigger] self.items@[c]).0@ == k;
                    assert(c < old_items.len());
                    assert(self.items@[c] == old_items[c]);
                }
                if k == path@ {
                    assert(self.items@[old_items.len() as int].0@ == path@);
                }
            }
            assert forall|k: Seq<char>| #[trigger] self@.contains_key(k) implies self@[k] == before.insert(
                path@,
                item,
            )[k] by {
                let c = choose|c: int| 0 <= c < self.items@.len() && (#[trigger] self.items@[c]).0@ == k;
                self.lemma_lookup(c);
                if k != path@ {
                    assert(c < old_items.len());
                    assert(self.items@[c] == old_items[c]);
                    let d = choose|d: int| 0 <= d < old_items.len() && (#[trigger] old_items[d]).0@ == k;
                    assert(self.items@[d] == old_items[d]);
                    self.lemma_lookup(d);
                } else {
                    self.lemma_lookup(old_items.len() as int);
                }
            }
            assert(self@ =~= before.insert(path@, item));
        }
        Ok(item)
    }
}

impl<T: Loadable> Default for Loader<T> {
    fn default() -> (r: Self)
        ensures
            r.wf(),
            r@ == Map::<Seq<char>, Arc<T>>::empty(),
    {
        Loader::new()
    }
}

} // verus!
