use vstd::prelude::*;

verus! {

/// `keys[i]` is the ordering key of the `i`-th primitive's hit, or `None` where it reports
/// none. `i` holds the nearest hit: no primitive hits nearer, and none before it as near.
pub open spec fn is_nearest(keys: Seq<Option<u64>>, i: int) -> bool {
    &&& 0 <= i < keys.len()
    &&& keys[i] is Some
    &&& forall|j: int| 0 <= j < keys.len() && keys[j] is Some ==> keys[i]->0 <= keys[j]->0
    &&& forall|j: int| 0 <= j < i && keys[j] is Some ==> keys[i]->0 < keys[j]->0
}

/// No primitive reports a hit.
pub open spec fn all_missed(keys: Seq<Option<u64>>) -> bool {
    forall|j: int| 0 <= j < keys.len() ==> keys[j] is None
}

/// Picks, among the primitives of a scene in order, the one whose hit is nearest. Each key
/// orders hits by their distance along the ray; on equal keys the earlier primitive wins,
/// as a later one cannot report a hit beyond the nearest one found so far.
pub fn nearest_hit(keys: &Vec<Option<u64>>) -> (r: Option<usize>)
    ensures
        r is None <==> all_missed(keys@),
        r matches Some(i) ==> is_nearest(keys@, i as int),
{
    let mut best: Option<usize> = None;
    let mut i: usize = 0;
    while i < keys.len()
        invariant
            0 <= i <= keys.len(),
            best is None <==> all_missed(keys@.subrange(0, i as int)),
            best matches Some(b) ==> is_nearest(keys@.subrange(0, i as int), b as int),
            best matches Some(b) ==> b < i,
        decreases keys.len() - i,
    {
        let ghost prev = keys@.subrange(0, i as int);
        let ghost next = keys@.subrange(0, i + 1);
        assert(forall|j: int| 0 <= j < i ==> next[j] == prev[j]);
        match keys[i] {
            Some(k) => {
                let closer = match best {
                    None => true,
                    Some(b) => match keys[b] {
                        Some(kb) => k < kb,
                        None => false,
                    },
                };
                if closer {
                    best = Some(i);
                }
            },
            None => {},
        }
        i = i + 1;
    }
    assert(keys@.subrange(0, keys.len() as int) =~= keys@);
    best
}

} // verus!
