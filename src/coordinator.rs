use vstd::prelude::*;

verus! {

/// `i` holds the lowest key of `keys`, and no earlier index holds a key as low.
pub open spec fn is_first_minimum(keys: Seq<u64>, i: int) -> bool {
    &&& 0 <= i < keys.len()
    &&& forall|j: int| 0 <= j < keys.len() ==> keys[i] <= #[trigger] keys[j]
    &&& forall|j: int| 0 <= j < i ==> keys[i] < #[trigger] keys[j]
}

/// Picks the worker whose best energy key is lowest, the lowest worker id
/// among equal keys; `None` when there are no workers.
pub fn select_best(keys: &Vec<u64>) -> (r: Option<usize>)
    ensures
        r is None <==> keys@.len() == 0,
        r is Some ==> is_first_minimum(keys@, r->0 as int),
{
    if keys.len() == 0 {
        return None;
    }
    let mut best: usize = 0;
    let mut i: usize = 1;
    while i < keys.len()
        invariant
            1 <= i <= keys@.len(),
            best < i,
            forall|j: int| 0 <= j < i ==> keys@[best as int] <= #[trigger] keys@[j],
            forall|j: int| 0 <= j < best ==> keys@[best as int] < #[trigger] keys@[j],
        decreases keys@.len() - i,
    {
        if keys[i] < keys[best] {
            best = i;
        }
        i = i + 1;
    }
    Some(best)
}

/// The index of the first minimum is unique: the selection does not depend on
/// anything but the keys.
pub proof fn lemma_first_minimum_unique(keys: Seq<u64>, i: int, j: int)
    requires
        is_first_minimum(keys, i),
        is_first_minimum(keys, j),
    ensures
        i == j,
{
    if i < j {
        assert(keys[j] < keys[i]);
    } else if j < i {
        assert(keys[i] < keys[j]);
    }
}

} // verus!
