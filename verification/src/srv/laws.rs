//! What holds of the fids of a connection across requests

use crate::fcall::FcallView;
use crate::srv::dispatch::dispatched;
use crate::srv::dispatch::put_all;
use crate::srv::dispatch::settled;
use crate::srv::takeable;
use vstd::prelude::*;

verus! {

/// The fids that a request introduces where it succeeds.
pub open spec fn introduced_by(req: FcallView) -> Set<u32> {
    if req is Tversion || req.drops_fid() {
        Set::empty()
    } else {
        req.newfids().to_set()
    }
}

/// The fids that a request discards where it succeeds.
pub open spec fn discarded_by(req: FcallView) -> Set<u32> {
    if req is Tversion {
        Set::full()
    } else if req.drops_fid() {
        req.fids().to_set()
    } else {
        Set::empty()
    }
}

/// The live fids behind a request whose fids were live, where `ok` says
/// whether the file system replied without an error.
pub open spec fn live_after(live: Set<u32>, req: FcallView, ok: bool) -> Set<u32> {
    if req is Tversion {
        Set::empty()
    } else if !ok {
        live
    } else {
        live.difference(discarded_by(req)).union(introduced_by(req))
    }
}

/// The live fids behind a run of requests each of which succeeded.
pub open spec fn live_after_all(live: Set<u32>, reqs: Seq<FcallView>) -> Set<u32>
    decreases reqs.len(),
{
    if reqs.len() == 0 {
        live
    } else {
        live_after(live_after_all(live, reqs.drop_last()), reqs.last(), true)
    }
}

/// Installing entries makes their keys live and no others.
pub proof fn lemma_put_all_dom<A>(m: Map<u32, Option<A>>, keys: Seq<u32>, states: Seq<Option<A>>)
    ensures
        put_all(m, keys, states).dom() == m.dom().union(keys.to_set()),
    decreases keys.len(),
{
    if keys.len() == 0 {
        assert(keys.to_set() =~= Set::<u32>::empty());
        assert(m.dom().union(keys.to_set()) =~= m.dom());
    } else {
        let m1 = m.insert(keys[0], states[0]);
        lemma_put_all_dom(m1, keys.skip(1), states.skip(1));
        assert(m1.dom().union(keys.skip(1).to_set()) =~= m.dom().union(keys.to_set())) by {
            assert forall|k: u32| keys.to_set().contains(k) <==> (k == keys[0] || keys.skip(
                1,
            ).to_set().contains(k)) by {
                if keys.contains(k) {
                    let j = choose|j: int| 0 <= j < keys.len() && keys[j] == k;
                    if j > 0 {
                        assert(keys.skip(1)[j - 1] == k);
                    }
                }
                if keys.skip(1).contains(k) {
                    let j = choose|j: int| 0 <= j < keys.skip(1).len() && keys.skip(1)[j] == k;
                    assert(keys[j + 1] == k);
                }
                if k == keys[0] {
                    assert(keys.contains(k));
                }
            }
        }
    }
}

/// Installing entries leaves every other entry as it was.
pub proof fn lemma_put_all_others<A>(
    m: Map<u32, Option<A>>,
    keys: Seq<u32>,
    states: Seq<Option<A>>,
    k: u32,
)
    requires
        !keys.contains(k),
    ensures
        put_all(m, keys, states).contains_key(k) == m.contains_key(k),
        put_all(m, keys, states)[k] == m[k],
    decreases keys.len(),
{
    if keys.len() > 0 {
        assert(keys[0] != k);
        assert(!keys.skip(1).contains(k)) by {
            if keys.skip(1).contains(k) {
                let j = choose|j: int| 0 <= j < keys.skip(1).len() && keys.skip(1)[j] == k;
                assert(keys[j + 1] == k);
            }
        }
        lemma_put_all_others(m.insert(keys[0], states[0]), keys.skip(1), states.skip(1), k);
    }
}

/// Fid closure, one request: behind a request whose fids were live, the live
/// fids are those that were live, less those that the request discards, plus
/// those that it introduces; behind an error they are as before.
pub proof fn lemma_settled_live<A>(
    before: Map<u32, Option<A>>,
    req: FcallView,
    taken: Seq<Option<A>>,
    fresh: Seq<Option<A>>,
    ok: bool,
)
    requires
        takeable(before.dom(), req.fids()),
    ensures
        settled(before.remove_keys(req.fids().to_set()), req, taken, fresh, ok).dom()
            == live_after(before.dom(), req, ok),
{
    let gone = req.fids().to_set();
    let rest = before.remove_keys(gone);
    let back = put_all(rest, req.fids(), taken);
    lemma_put_all_dom(rest, req.fids(), taken);
    lemma_put_all_dom(back, req.newfids(), fresh);
    assert forall|k: u32| gone.contains(k) implies before.dom().contains(k) by {
        let j = choose|j: int| 0 <= j < req.fids().len() && req.fids()[j] == k;
        assert(before.dom().contains(req.fids()[j]));
    }
    assert(back.dom() =~= before.dom());
    assert(settled(rest, req, taken, fresh, ok).dom() =~= live_after(before.dom(), req, ok));
}

/// Fid closure, one dispatch: what `dispatch_once` leaves live is what was
/// live, less what the request discards, plus what it introduces, where the
/// file system replied without an error; it is what was live where the
/// request failed.
pub proof fn lemma_dispatched_live<A>(
    before: Map<u32, Option<A>>,
    req: FcallView,
    reply: FcallView,
    after: Map<u32, Option<A>>,
)
    requires
        dispatched(before, req, reply, after),
    ensures
        after.dom() == live_after(before.dom(), req, true) || after.dom() == live_after(
            before.dom(),
            req,
            false,
        ),
        !(reply is Rlerror) ==> after.dom() == live_after(before.dom(), req, true),
        !takeable(before.dom(), req.fids()) ==> after == before,
{
    if takeable(before.dom(), req.fids()) {
        let (taken, fresh, ok) = choose|
            taken: Seq<Option<A>>,
            fresh: Seq<Option<A>>,
            ok: bool,
        |
            {
                &&& taken.len() == req.fids().len()
                &&& fresh.len() == req.newfids().len()
                &&& !ok ==> reply is Rlerror
                &&& after == #[trigger] settled(
                    before.remove_keys(req.fids().to_set()),
                    req,
                    taken,
                    fresh,
                    ok,
                )
            };
        lemma_settled_live(before, req, taken, fresh, ok);
    } else {
        assert(live_after(before.dom(), req, false) == before.dom() || req is Tversion);
        if req is Tversion {
            assert(req.fids() =~= Seq::<u32>::empty());
        }
    }
}

/// A dispatch leaves the entries of the fids that the request does not name
/// as they were, but for a `Tversion`.
pub proof fn lemma_dispatched_others<A>(
    before: Map<u32, Option<A>>,
    req: FcallView,
    reply: FcallView,
    after: Map<u32, Option<A>>,
    k: u32,
)
    requires
        dispatched(before, req, reply, after),
        !(req is Tversion),
        !req.fids().contains(k),
        !req.newfids().contains(k),
    ensures
        after.contains_key(k) == before.contains_key(k),
        before.contains_key(k) ==> after[k] == before[k],
{
    if takeable(before.dom(), req.fids()) {
        let (taken, fresh, ok) = choose|
            taken: Seq<Option<A>>,
            fresh: Seq<Option<A>>,
            ok: bool,
        |
            {
                &&& taken.len() == req.fids().len()
                &&& fresh.len() == req.newfids().len()
                &&& !ok ==> reply is Rlerror
                &&& after == #[trigger] settled(
                    before.remove_keys(req.fids().to_set()),
                    req,
                    taken,
                    fresh,
                    ok,
                )
            };
        let rest = before.remove_keys(req.fids().to_set());
        let back = put_all(rest, req.fids(), taken);
        lemma_put_all_others(rest, req.fids(), taken, k);
        lemma_put_all_others(back, req.newfids(), fresh, k);
    }
}

/// Clunk under errors: where the file system answers a `Tclunk` with an
/// error, the fid remains in the table.
pub proof fn lemma_clunk_error_keeps_fid<A>(
    before: Map<u32, Option<A>>,
    fid: u32,
    taken: Seq<Option<A>>,
    fresh: Seq<Option<A>>,
)
    requires
        before.contains_key(fid),
    ensures
        ({
            let req = FcallView::Tclunk { fid };
            let after = settled(before.remove_keys(req.fids().to_set()), req, taken, fresh, false);
            after.contains_key(fid) && after.dom() == before.dom()
        }),
{
    let req = FcallView::Tclunk { fid };
    lemma_settled_live(before, req, taken, fresh, false);
}

/// A clunk that succeeds discards the fid and no other.
pub proof fn lemma_clunk_discards_fid<A>(
    before: Map<u32, Option<A>>,
    fid: u32,
    taken: Seq<Option<A>>,
    fresh: Seq<Option<A>>,
)
    requires
        before.contains_key(fid),
    ensures
        ({
            let req = FcallView::Tclunk { fid };
            let after = settled(before.remove_keys(req.fids().to_set()), req, taken, fresh, true);
            after == before.remove(fid)
        }),
{
    let req = FcallView::Tclunk { fid };
    assert(req.fids().to_set() =~= set![fid]) by {
        assert(req.fids()[0] == fid);
    }
    assert(before.remove_keys(set![fid]) =~= before.remove(fid));
}

/// Newfid insertion: behind a `Twalk` that succeeds, the walked fid and the
/// new fid are both live, and no other fid has come or gone. Where the two
/// are the same fid, the live fids are those that were live: one entry
/// stands under that fid, and it is the one that was handed out as new.
pub proof fn lemma_walk_newfid<A>(
    before: Map<u32, Option<A>>,
    fid: u32,
    newfid: u32,
    wnames: Seq<Seq<char>>,
    taken: Seq<Option<A>>,
    fresh: Seq<Option<A>>,
)
    requires
        before.contains_key(fid),
        taken.len() == 1,
        fresh.len() == 1,
    ensures
        ({
            let req = FcallView::Twalk { fid, newfid, wnames };
            let after = settled(before.remove_keys(req.fids().to_set()), req, taken, fresh, true);
            &&& after.contains_key(fid)
            &&& after.contains_key(newfid)
            &&& after.dom() == before.dom().insert(newfid)
            &&& after[newfid] == fresh[0]
            &&& newfid != fid ==> after[fid] == taken[0]
            &&& newfid == fid ==> after.dom() == before.dom()
        }),
{
    let req = FcallView::Twalk { fid, newfid, wnames };
    assert(req.fids()[0] == fid);
    assert(req.newfids()[0] == newfid);
    lemma_settled_live(before, req, taken, fresh, true);
    assert(req.newfids().to_set() =~= set![newfid]);
    assert(req.fids().to_set() =~= set![fid]);
    assert(before.dom().union(set![newfid]) =~= before.dom().insert(newfid));
    let rest = before.remove_keys(req.fids().to_set());
    let back = put_all(rest, req.fids(), taken);
    assert(req.fids().skip(1) =~= Seq::<u32>::empty());
    assert(req.newfids().skip(1) =~= Seq::<u32>::empty());
    assert(back == rest.insert(fid, taken[0])) by {
        reveal_with_fuel(put_all, 2);
    }
    assert(put_all(back, req.newfids(), fresh) == back.insert(newfid, fresh[0])) by {
        reveal_with_fuel(put_all, 2);
    }
    if newfid == fid {
        assert(before.dom().insert(newfid) =~= before.dom());
    }
}

/// Whether request `j` of the run introduces `fid` and no request behind it
/// discards `fid`.
pub open spec fn introduced_for_good(reqs: Seq<FcallView>, fid: u32, j: int) -> bool {
    &&& 0 <= j < reqs.len()
    &&& introduced_by(reqs[j]).contains(fid)
    &&& forall|k: int| j < k < reqs.len() ==> !#[trigger] discarded_by(reqs[k]).contains(fid)
}

/// Whether no request of the run discards `fid`.
pub open spec fn never_discarded(reqs: Seq<FcallView>, fid: u32) -> bool {
    forall|k: int| 0 <= k < reqs.len() ==> !#[trigger] discarded_by(reqs[k]).contains(fid)
}

/// Fid closure: behind a run of requests each of which succeeded, a fid is
/// live exactly where some request of the run introduced it and none behind
/// that one discarded it, or where it was live before the run and no request
/// of the run discarded it.
pub proof fn lemma_live_after_all(live: Set<u32>, reqs: Seq<FcallView>, fid: u32)
    ensures
        live_after_all(live, reqs).contains(fid) <==> {
            ||| exists|j: int| #[trigger] introduced_for_good(reqs, fid, j)
            ||| live.contains(fid) && never_discarded(reqs, fid)
        },
    decreases reqs.len(),
{
    if reqs.len() > 0 {
        let front = reqs.drop_last();
        let last = reqs.last();
        let n = reqs.len() as int;
        lemma_live_after_all(live, front, fid);
        assert forall|k: int| 0 <= k < front.len() implies front[k] == reqs[k] by {}
        if live_after_all(live, reqs).contains(fid) {
            if introduced_by(last).contains(fid) {
                assert(introduced_for_good(reqs, fid, n - 1));
            } else {
                assert(live_after_all(live, front).contains(fid));
                assert(!discarded_by(reqs[n - 1]).contains(fid));
                if live.contains(fid) && never_discarded(front, fid) {
                    assert(never_discarded(reqs, fid));
                } else {
                    let j = choose|j: int| #[trigger] introduced_for_good(front, fid, j);
                    assert(introduced_by(reqs[j]).contains(fid));
                    assert(introduced_for_good(reqs, fid, j));
                }
            }
        } else {
            assert(!introduced_by(reqs[n - 1]).contains(fid));
            if exists|j: int| #[trigger] introduced_for_good(reqs, fid, j) {
                let j = choose|j: int| #[trigger] introduced_for_good(reqs, fid, j);
                assert(j < n - 1);
                assert(!discarded_by(reqs[n - 1]).contains(fid));
                assert(introduced_by(front[j]).contains(fid));
                assert(introduced_for_good(front, fid, j));
                assert(false);
            }
            if live.contains(fid) && never_discarded(reqs, fid) {
                assert(!discarded_by(reqs[n - 1]).contains(fid));
                assert(never_discarded(front, fid));
                assert(false);
            }
        }
    }
}

/// The fids that the requests of a run introduce.
pub open spec fn introduced(reqs: Seq<FcallView>) -> Set<u32> {
    Set::new(
        |fid: u32|
            exists|j: int| 0 <= j < reqs.len() && #[trigger] introduced_by(reqs[j]).contains(fid),
    )
}

/// The fids that the requests of a run discard.
pub open spec fn discarded(reqs: Seq<FcallView>) -> Set<u32> {
    Set::new(
        |fid: u32|
            exists|j: int| 0 <= j < reqs.len() && #[trigger] discarded_by(reqs[j]).contains(fid),
    )
}

/// Whether no request of the run introduces a fid that an earlier request
/// of the run discarded, unless a later one discards it again.
pub open spec fn none_revived(reqs: Seq<FcallView>) -> bool {
    forall|fid: u32, i: int, j: int|
        0 <= i < j < reqs.len() && #[trigger] discarded_by(reqs[i]).contains(fid)
            && #[trigger] introduced_by(reqs[j]).contains(fid) ==> exists|k: int|
            j < k < reqs.len() && #[trigger] discarded_by(reqs[k]).contains(fid)
}

/// Fid closure: behind a run of requests each of which succeeded, and in
/// which no fid was introduced again behind its last discard, the live fids
/// are those that were live or were introduced, less those that were
/// discarded.
pub proof fn lemma_fid_closure(live: Set<u32>, reqs: Seq<FcallView>)
    requires
        none_revived(reqs),
    ensures
        live_after_all(live, reqs) == live.union(introduced(reqs)).difference(discarded(reqs)),
{
    let lhs = live_after_all(live, reqs);
    let rhs = live.union(introduced(reqs)).difference(discarded(reqs));
    assert forall|fid: u32| lhs.contains(fid) <==> rhs.contains(fid) by {
        lemma_live_after_all(live, reqs, fid);
        if lhs.contains(fid) {
            if discarded(reqs).contains(fid) {
                let i = choose|i: int|
                    0 <= i < reqs.len() && #[trigger] discarded_by(reqs[i]).contains(fid);
                assert(!never_discarded(reqs, fid));
                let j = choose|j: int| #[trigger] introduced_for_good(reqs, fid, j);
                assert(i < j);
                assert(false);
            }
            if !live.contains(fid) {
                let j = choose|j: int| #[trigger] introduced_for_good(reqs, fid, j);
                assert(introduced_by(reqs[j]).contains(fid));
            }
        }
        if rhs.contains(fid) {
            assert(never_discarded(reqs, fid));
            if !live.contains(fid) {
                let j = choose|j: int|
                    0 <= j < reqs.len() && #[trigger] introduced_by(reqs[j]).contains(fid);
                assert(introduced_for_good(reqs, fid, j));
            }
        }
    }
    assert(lhs =~= rhs);
}

} // verus!
