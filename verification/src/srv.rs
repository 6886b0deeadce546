//! Server side 9P library.
//!
//! # Protocol
//! 9P2000.L

use crate::error::Errno;
use crate::error::Error;
use std::collections::HashMap;
use vstd::prelude::*;
use vstd::std_specs::hash::group_hash_axioms;

pub mod dispatch;
pub mod filesystem;
pub mod laws;

pub use dispatch::dispatch_once;
pub use dispatch::respond;
pub use dispatch::serve;
pub use dispatch::settle;
pub use dispatch::ServerInstance;
pub use filesystem::Filesystem;


verus! {

broadcast use group_hash_axioms;

/// Represents a fid of clients holding associated `Filesystem::Fid`.
#[derive(Debug, PartialEq, Eq, Hash)]
pub struct Fid<T> {
    /// Raw client side fid.
    fid: u32,
    /// `Filesystem::Fid` associated with this fid.
    /// Changing this value affects the continuous callbacks.
    pub aux: Option<T>,
}

impl<T> Fid<T> {
    /// The raw fid.
    pub closed spec fn raw(&self) -> u32 {
        self.fid
    }

    /// The state that the file system keeps with this fid, if it has set any.
    pub closed spec fn state(&self) -> Option<T> {
        self.aux
    }

    /// Get the raw fid.
    pub fn fid(&self) -> (r: u32)
        ensures
            r == self.raw(),
    {
        self.fid
    }

    /// Unwrap and return a reference to the aux.
    pub fn aux(&self) -> (r: &T)
        requires
            self.state() is Some,
        ensures
            *r == self.state()->0,
    {
        self.aux.as_ref().unwrap()
    }

    /// Unwrap and return a mutable reference to the aux.
    pub fn aux_mut(&mut self) -> (r: &mut T)
        requires
            old(self).state() is Some,
        ensures
            *r == old(self).state()->0,
            final(self).state() == Some(*final(r)),
            final(self).raw() == old(self).raw(),
    {
        self.aux.as_mut().unwrap()
    }
}

/// Whether every fid of `fids` is live and none stands twice among them.
pub open spec fn takeable(live: Set<u32>, fids: Seq<u32>) -> bool {
    fids.no_duplicates() && forall|i: int| 0 <= i < fids.len() ==> live.contains(#[trigger] fids[i])
}

/// Where a run of fids can be taken, so can the run without its last fid,
/// and the last fid is live and stands nowhere else in the run.
proof fn lemma_takeable_shorter(live: Set<u32>, fids: Seq<u32>)
    requires
        takeable(live, fids),
        fids.len() > 0,
    ensures
        takeable(live, fids.drop_last()),
        live.contains(fids.last()),
        !fids.drop_last().to_set().contains(fids.last()),
        fids.to_set() == fids.drop_last().to_set().insert(fids.last()),
{
    let front = fids.drop_last();
    assert forall|i: int| 0 <= i < front.len() implies live.contains(#[trigger] front[i]) by {
        assert(front[i] == fids[i]);
    }
    assert forall|i: int, j: int| 0 <= i < j < front.len() implies front[i] != front[j] by {
        assert(front[i] == fids[i] && front[j] == fids[j]);
    }
    if front.to_set().contains(fids.last()) {
        let j = choose|j: int| 0 <= j < front.len() && front[j] == fids.last();
        assert(fids[j] == fids[fids.len() - 1]);
    }
    assert(front.push(fids.last()) =~= fids);
    front.lemma_push_to_set_commute(fids.last());
}

/// The fids of a connection: a mapping from the raw fids that are live to
/// the state that the file system keeps with each.
pub struct FidTable<A> {
    fids: HashMap<u32, Fid<A>>,
}

impl<A> View for FidTable<A> {
    type V = Map<u32, Option<A>>;

    closed spec fn view(&self) -> Map<u32, Option<A>> {
        Map::new(|k: u32| self.fids@.contains_key(k), |k: u32| self.fids@[k].aux)
    }
}

impl<A> FidTable<A> {
    /// Every entry stands under its own raw fid.
    pub closed spec fn wf(&self) -> bool {
        forall|k: u32| self.fids@.contains_key(k) ==> (#[trigger] self.fids@[k]).raw() == k
    }

    /// A table without fids.
    pub fn new() -> (t: FidTable<A>)
        ensures
            t.wf(),
            t@ == Map::<u32, Option<A>>::empty(),
    {
        let t = FidTable { fids: HashMap::new() };
        assert(t@ =~= Map::<u32, Option<A>>::empty());
        t
    }

    /// Construct a fid without aux; it is not installed.
    pub fn new_fid(rawfid: u32) -> (f: Fid<A>)
        ensures
            f.raw() == rawfid,
            f.state() is None,
    {
        Fid { fid: rawfid, aux: None }
    }

    /// Whether `fid` is live.
    pub fn contains(&self, fid: u32) -> (r: bool)
        ensures
            r == self@.contains_key(fid),
    {
        self.fids.contains_key(&fid)
    }

    /// Move the entry of `fid` out; fail if absent.
    pub fn take(&mut self, fid: u32) -> (res: Result<Fid<A>, Error>)
        requires
            old(self).wf(),
        ensures
            final(self).wf(),
            match res {
                Ok(f) => {
                    &&& old(self)@.contains_key(fid)
                    &&& f.raw() == fid
                    &&& f.state() == old(self)@[fid]
                    &&& final(self)@ == old(self)@.remove(fid)
                },
                Err(e) => {
                    &&& !old(self)@.contains_key(fid)
                    &&& e == Error::No(Errno::ENOENT)
                    &&& final(self)@ == old(self)@
                },
            },
    {
        match self.fids.remove(&fid) {
            Some(f) => {
                assert(self@ =~= old(self)@.remove(fid));
                Ok(f)
            },
            None => {
                assert(self@ =~= old(self)@);
                Err(Error::No(Errno::ENOENT))
            },
        }
    }

    /// Install `f` under its raw fid, in place of what stood there.
    pub fn insert(&mut self, f: Fid<A>)
        requires
            old(self).wf(),
        ensures
            final(self).wf(),
            final(self)@ == old(self)@.insert(f.raw(), f.state()),
    {
        let ghost key = f.raw();
        let ghost aux = f.aux;
        self.fids.insert(f.fid, f);
        assert(self@ =~= old(self)@.insert(key, aux));
    }

    /// Discard the entry of `fid`, if there is one.
    pub fn remove(&mut self, fid: u32) -> (res: Option<Fid<A>>)
        requires
            old(self).wf(),
        ensures
            final(self).wf(),
            final(self)@ == old(self)@.remove(fid),
            match res {
                Some(f) => {
                    &&& old(self)@.contains_key(fid)
                    &&& f.raw() == fid
                    &&& f.state() == old(self)@[fid]
                },
                None => !old(self)@.contains_key(fid),
            },
    {
        let res = self.fids.remove(&fid);
        assert(self@ =~= old(self)@.remove(fid));
        res
    }

    /// Discard every entry.
    pub fn clear(&mut self)
        ensures
            final(self).wf(),
            final(self)@ == Map::<u32, Option<A>>::empty(),
    {
        self.fids.clear();
        assert(self@ =~= Map::<u32, Option<A>>::empty());
    }

    /// Take all of `fids`; on any miss, put back what was taken and fail.
    pub fn take_many(&mut self, fids: &[u32]) -> (res: Result<Vec<Fid<A>>, Error>)
        requires
            old(self).wf(),
        ensures
            final(self).wf(),
            match res {
                Ok(taken) => {
                    &&& takeable(old(self)@.dom(), fids@)
                    &&& taken@.len() == fids@.len()
                    &&& forall|i: int|
                        0 <= i < fids@.len() ==> (#[trigger] taken@[i]).raw() == fids@[i]
                            && taken@[i].state() == old(self)@[fids@[i]]
                    &&& final(self)@ == old(self)@.remove_keys(fids@.to_set())
                },
                Err(e) => !takeable(old(self)@.dom(), fids@) && e == Error::No(Errno::ENOENT)
                    && final(self)@ == old(self)@,
            },
    {
        let mut taken: Vec<Fid<A>> = Vec::new();
        let mut i: usize = 0;
        assert(self@ =~= old(self)@.remove_keys(fids@.take(0).to_set()));
        while i < fids.len()
            invariant
                i <= fids.len(),
                self.wf(),
                taken@.len() == i,
                takeable(old(self)@.dom(), fids@.take(i as int)),
                forall|j: int|
                    0 <= j < i ==> (#[trigger] taken@[j]).raw() == fids@[j] && taken@[j].state()
                        == old(self)@[fids@[j]],
                self@ == old(self)@.remove_keys(fids@.take(i as int).to_set()),
            decreases fids.len() - i,
        {
            let ghost before = fids@.take(i as int);
            let fid = fids[i];
            match self.take(fid) {
                Ok(f) => {
                    taken.push(f);
                    proof {
                        assert(fids@.take(i + 1) =~= before.push(fid));
                        before.lemma_push_to_set_commute(fid);
                        assert(self@ =~= old(self)@.remove_keys(fids@.take(i + 1).to_set()));
                    }
                },
                Err(e) => {
                    proof {
                        assert(!takeable(old(self)@.dom(), fids@)) by {
                            if old(self)@.dom().contains(fid) {
                                assert(before.to_set().contains(fid));
                                let j = choose|j: int| 0 <= j < before.len() && before[j] == fid;
                                assert(fids@[j] == fids@[i as int]);
                            }
                        }
                    }
                    self.put_back(taken, Ghost(old(self)@), Ghost(fids@));
                    return Err(e);
                },
            }
            i = i + 1;
        }
        assert(fids@.take(i as int) =~= fids@);
        Ok(taken)
    }

    /// Install again what `take_many` took.
    fn put_back(
        &mut self,
        taken: Vec<Fid<A>>,
        Ghost(whole): Ghost<Map<u32, Option<A>>>,
        Ghost(fids): Ghost<Seq<u32>>,
    )
        requires
            old(self).wf(),
            taken@.len() <= fids.len(),
            takeable(whole.dom(), fids.take(taken@.len() as int)),
            forall|j: int|
                0 <= j < taken@.len() ==> (#[trigger] taken@[j]).raw() == fids[j]
                    && taken@[j].state() == whole[fids[j]],
            old(self)@ == whole.remove_keys(fids.take(taken@.len() as int).to_set()),
        ensures
            final(self).wf(),
            final(self)@ == whole,
    {
        let mut taken = taken;
        while taken.len() > 0
            invariant
                self.wf(),
                taken@.len() <= fids.len(),
                takeable(whole.dom(), fids.take(taken@.len() as int)),
                forall|j: int|
                    0 <= j < taken@.len() ==> (#[trigger] taken@[j]).raw() == fids[j]
                        && taken@[j].state() == whole[fids[j]],
                self@ == whole.remove_keys(fids.take(taken@.len() as int).to_set()),
            decreases taken@.len(),
        {
            let ghost n = taken@.len() as int;
            let f = taken.pop().unwrap();
            self.insert(f);
            proof {
                lemma_takeable_shorter(whole.dom(), fids.take(n));
                assert(fids.take(n).drop_last() =~= fids.take(n - 1));
                assert(self@ =~= whole.remove_keys(fids.take(n - 1).to_set()));
            }
        }
        assert(fids.take(0).to_set() =~= Set::<u32>::empty());
        assert(self@ =~= whole);
    }
}

} // verus!
