//! The nearest-hit scan over the primitives of a scene.
//!
//! Every primitive is tested in order against an interval whose upper end
//! the caller lowers to the distance of each successful hit, so a later
//! primitive can only report a hit nearer than (or, at equal distance, tied
//! with) every earlier one. The hit that stands at the end of the scan is
//! therefore the last one reported.

use vstd::prelude::*;

verus! {

/// The index of the last `true` in `hits`, if there is one.
pub open spec fn last_hit(hits: Seq<bool>) -> Option<nat>
    decreases hits.len(),
{
    if hits.len() == 0 {
        None
    } else if hits.last() {
        Some((hits.len() - 1) as nat)
    } else {
        last_hit(hits.drop_last())
    }
}

/// Progress of one scan: how many primitives were tested and which of them
/// holds the nearest hit so far.
#[derive(Clone, Copy, Debug, PartialEq, Eq, Structural)]
pub struct NearestHit {
    /// Primitives tested so far.
    pub tested: usize,
    /// Index of the primitive whose hit currently stands.
    pub best: Option<usize>,
}

impl NearestHit {
    /// A scan before any primitive was tested.
    pub fn new() -> (r: NearestHit)
        ensures
            r.tested == 0,
            r.best is None,
    {
        NearestHit { tested: 0, best: None }
    }

    /// Records whether the next primitive reported a hit inside the current
    /// interval. Returns true when the caller must lower the interval's
    /// upper end to that hit's distance and keep its record.
    pub fn record(&mut self, hit: bool) -> (r: bool)
        requires
            old(self).tested < usize::MAX,
        ensures
            r == hit,
            final(self).tested == old(self).tested + 1,
            final(self).best == if hit {
                Some(old(self).tested)
            } else {
                old(self).best
            },
    {
        if hit {
            self.best = Some(self.tested);
        }
        self.tested = self.tested + 1;
        hit
    }
}

/// Scans primitives whose answers, in order, are `hits` and returns the
/// index of the primitive whose hit stands at the end.
pub fn scan_hits(hits: &Vec<bool>) -> (r: Option<usize>)
    ensures
        match r {
            Some(i) => last_hit(hits@) == Some(i as nat),
            None => last_hit(hits@) is None,
        },
{
    let mut scan = NearestHit::new();
    let mut i: usize = 0;
    while i < hits.len()
        invariant
            i <= hits.len(),
            scan.tested == i,
            match scan.best {
                Some(b) => last_hit(hits@.subrange(0, i as int)) == Some(b as nat),
                None => last_hit(hits@.subrange(0, i as int)) is None,
            },
        decreases hits.len() - i,
    {
        assert(hits@.subrange(0, i + 1).drop_last() =~= hits@.subrange(0, i as int));
        scan.record(hits[i]);
        i = i + 1;
    }
    assert(hits@.subrange(0, hits@.len() as int) =~= hits@);
    scan.best
}

/// The scan keeps the last hit reported: no primitive after it hit, and the
/// hit that stands was reported by its primitive.
pub proof fn lemma_last_hit_stands(hits: Seq<bool>)
    ensures
        match last_hit(hits) {
            Some(i) => i < hits.len() && hits[i as int] && forall|k: int|
                i < k < hits.len() ==> !hits[k],
            None => forall|k: int| 0 <= k < hits.len() ==> !hits[k],
        },
    decreases hits.len(),
{
    if hits.len() > 0 && !hits.last() {
        lemma_last_hit_stands(hits.drop_last());
        assert forall|k: int| 0 <= k < hits.len() - 1 implies hits.drop_last()[k] == hits[k] by {}
    }
}

} // verus!
