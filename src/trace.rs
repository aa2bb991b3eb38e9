use vstd::prelude::*;

verus! {

/// Index `i` holds the first of the smallest hit distances: it is a hit, no
/// hit is nearer, and every hit before it is farther.
pub open spec fn is_nearest(hits: Seq<Option<u64>>, i: int) -> bool {
    &&& 0 <= i < hits.len()
    &&& hits[i] is Some
    &&& forall|j: int| 0 <= j < hits.len() && #[trigger] hits[j] is Some
        ==> hits[i]->0 <= hits[j]->0
    &&& forall|j: int| 0 <= j < i && #[trigger] hits[j] is Some
        ==> hits[i]->0 < hits[j]->0
}

/// No entry of `hits` is a hit.
pub open spec fn no_hit(hits: Seq<Option<u64>>) -> bool {
    forall|j: int| 0 <= j < hits.len() ==> #[trigger] hits[j] is None
}

/// The nearest-hit query of a scene. Entry `i` of `hits` is the distance at
/// which the ray meets the scene's element `i`, or `None` where it misses it.
/// The result is the index of the nearest element hit, the first of them where
/// several are equally near, or `None` where the ray hits nothing.
pub fn nearest_hit(hits: &Vec<Option<u64>>) -> (r: Option<usize>)
    ensures
        r is None <==> no_hit(hits@),
        r matches Some(i) ==> is_nearest(hits@, i as int),
{
    let mut best: Option<usize> = None;
    let mut i: usize = 0;
    while i < hits.len()
        invariant
            0 <= i <= hits.len(),
            best is None <==> no_hit(hits@.subrange(0, i as int)),
            best matches Some(b) ==> b < i && is_nearest(hits@.subrange(0, i as int), b as int)
                && hits@.subrange(0, i as int)[b as int] == hits@[b as int],
        decreases hits.len() - i,
    {
        let ghost prev = hits@.subrange(0, i as int);
        let ghost cur = hits@.subrange(0, i as int + 1);
        assert(forall|j: int| 0 <= j < i ==> cur[j] == prev[j]);
        match hits[i] {
            Some(d) => {
                match best {
                    None => {
                        best = Some(i);
                    },
                    Some(b) => {
                        let bd = hits[b].unwrap();
                        if d < bd {
                            best = Some(i);
                        }
                    },
                }
            },
            None => {},
        }
        i = i + 1;
    }
    assert(hits@.subrange(0, hits.len() as int) =~= hits@);
    best
}

} // verus!
