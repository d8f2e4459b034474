//! The scene: an append-only collection of surfaces, and the rule that picks,
//! among the surfaces a ray meets, the one it meets first.
use vstd::prelude::*;

verus! {

/// The surfaces of a scene, in the order in which they were added.
pub struct World<S> {
    objects: Vec<S>,
}

impl<S> View for World<S> {
    type V = Seq<S>;

    closed spec fn view(&self) -> Seq<S> {
        self.objects@
    }
}

impl<S> World<S> {
    /// An empty scene.
    pub fn new() -> (w: Self)
        ensures
            w@ == Seq::<S>::empty(),
    {
        World { objects: Vec::new() }
    }

    /// Appends a surface; those already there keep their places.
    pub fn add(&mut self, object: S)
        ensures
            final(self)@ == old(self)@.push(object),
    {
        self.objects.push(object);
    }

    /// How many surfaces the scene holds.
    pub fn len(&self) -> (n: usize)
        ensures
            n == self@.len(),
    {
        self.objects.len()
    }

    /// The surface at position `i`.
    pub fn get(&self, i: usize) -> (s: &S)
        requires
            i < self@.len(),
        ensures
            *s == self@[i as int],
    {
        &self.objects[i]
    }
}

/// Position `i` holds a hit, and no hit anywhere is strictly nearer.
pub open spec fn is_nearest(hits: Seq<Option<u64>>, i: int) -> bool {
    &&& 0 <= i < hits.len()
    &&& hits[i] is Some
    &&& forall|j: int|
        0 <= j < hits.len() && #[trigger] hits[j] is Some ==> hits[i]->0 <= hits[j]->0
}

/// Among the nearest hits, `i` is the last: a surface added later that is hit
/// at the same distance wins.
pub open spec fn is_chosen(hits: Seq<Option<u64>>, i: int) -> bool {
    &&& is_nearest(hits, i)
    &&& forall|j: int| i < j < hits.len() && #[trigger] hits[j] is Some ==> hits[i]->0 < hits[j]->0
}

/// No position holds a hit.
pub open spec fn no_hit(hits: Seq<Option<u64>>) -> bool {
    forall|j: int| 0 <= j < hits.len() ==> #[trigger] hits[j] is None
}

/// Picks the surface a ray meets first. `hits[i]` is what surface `i` reports
/// for the ray on its own: `None` for a miss, or the distance along the ray
/// as a key whose integer order is the order of distances. The result is the
/// position of the smallest key (the last such position on a tie), or `None`
/// when no surface is hit.
pub fn nearest_hit(hits: &Vec<Option<u64>>) -> (r: Option<usize>)
    ensures
        r is None <==> no_hit(hits@),
        r matches Some(i) ==> is_chosen(hits@, i as int),
{
    let mut best: Option<usize> = None;
    let mut i: usize = 0;
    while i < hits.len()
        invariant
            i <= hits@.len(),
            best is None <==> no_hit(hits@.subrange(0, i as int)),
            best matches Some(b) ==> b < i && is_chosen(hits@.subrange(0, i as int), b as int),
        decreases hits@.len() - i,
    {
        let ghost before = hits@.subrange(0, i as int);
        let ghost after = hits@.subrange(0, i + 1);
        assert(after =~= before.push(hits@[i as int]));
        match hits[i] {
            Some(t) => {
                let take = match best {
                    None => true,
                    Some(b) => match hits[b] {
                        Some(tb) => t <= tb,
                        None => true,
                    },
                };
                if take {
                    best = Some(i);
                    assert(is_chosen(after, i as int)) by {
                        assert forall|j: int|
                            0 <= j < after.len() && #[trigger] after[j] is Some implies t
                            <= after[j]->0 by {
                            if j < i {
                                assert(before[j] is Some);
                            }
                        }
                    }
                } else {
                    assert(is_chosen(after, best->0 as int)) by {
                        assert forall|j: int|
                            0 <= j < after.len() && #[trigger] after[j] is Some implies after[best->0 as int]->0
                            <= after[j]->0 by {
                            if j < i {
                                assert(before[j] is Some);
                            }
                        }
                        assert forall|j: int|
                            best->0 < j < after.len() && #[trigger] after[j] is Some implies after[best->0 as int]->0
                            < after[j]->0 by {
                            if j < i {
                                assert(before[j] is Some);
                            }
                        }
                    }
                }
            },
            None => {
                proof {
                    if best is None {
                        assert forall|j: int| 0 <= j < after.len() implies #[trigger] after[j] is None by {
                            if j < i {
                                assert(before[j] is None);
                            }
                        }
                    } else {
                        let b = best->0 as int;
                        assert forall|j: int|
                            0 <= j < after.len() && #[trigger] after[j] is Some implies after[b]->0
                            <= after[j]->0 by {
                            assert(before[j] is Some);
                        }
                        assert forall|j: int|
                            b < j < after.len() && #[trigger] after[j] is Some implies after[b]->0
                            < after[j]->0 by {
                            assert(before[j] is Some);
                        }
                    }
                }
            },
        }
        i = i + 1;
    }
    assert(hits@.subrange(0, i as int) =~= hits@);
    best
}

} // verus!
