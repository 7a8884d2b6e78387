use vstd::prelude::*;

verus! {

/// Hit `i` is present and comes no later than any other hit, and strictly
/// before every hit of an earlier object.
pub open spec fn is_closest(hits: Seq<Option<u32>>, i: int) -> bool {
    &&& 0 <= i < hits.len()
    &&& hits[i] is Some
    &&& forall|j: int|
        0 <= j < hits.len() && hits[j] is Some ==> hits[i]->0 <= hits[j]->0
    &&& forall|j: int| 0 <= j < i && hits[j] is Some ==> hits[i]->0 < hits[j]->0
}

/// Picks the hit that the ray meets first among the objects of a scene.
/// `hits[i]` is the order key of the ray parameter at which object `i` is
/// struck, or `None` where it is missed; keys order as the parameters do.
/// Among equal keys the earliest object wins, as when each object is tested
/// in turn against the nearest hit found so far.
pub fn closest_hit(hits: &Vec<Option<u32>>) -> (r: Option<usize>)
    ensures
        r is None <==> forall|j: int| 0 <= j < hits@.len() ==> hits@[j] is None,
        r matches Some(i) ==> is_closest(hits@, i as int),
{
    let mut best: Option<usize> = None;
    let mut k: usize = 0;
    while k < hits.len()
        invariant
            k <= hits@.len(),
            best is None <==> forall|j: int| 0 <= j < k ==> hits@[j] is None,
            best matches Some(i) ==> is_closest(hits@.take(k as int), i as int),
        decreases hits@.len() - k,
    {
        let ghost prefix = hits@.take(k as int);
        match hits[k] {
            Some(key) => {
                let better = match best {
                    None => true,
                    Some(i) => key < hits[i].unwrap(),
                };
                if better {
                    best = Some(k);
                }
            },
            None => {},
        }
        assert(hits@.take(k as int + 1) =~= prefix.push(hits@[k as int]));
        k = k + 1;
    }
    assert(hits@.take(k as int) =~= hits@);
    best
}

} // verus!
