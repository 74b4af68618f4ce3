use vstd::prelude::*;

verus! {

/// Why a pool could not be built.
#[derive(Clone, Copy, Debug, PartialEq, Eq, Structural)]
pub enum PoolError {
    /// A pool of no threads was asked for.
    ZeroSize,
}

/// The worker ids of a pool of `size` threads: `0, 1, ..., size - 1`, in the
/// order in which the workers are built.
pub open spec fn worker_ids_spec(size: nat) -> Seq<usize> {
    Seq::new(size, |i: int| i as usize)
}

/// Decides the workers of a new pool: one per thread, with ids `0..size` in
/// construction order. A pool of no threads is refused.
pub fn worker_ids(size: usize) -> (r: Result<Vec<usize>, PoolError>)
    ensures
        match r {
            Ok(ids) => size > 0 && ids@ == worker_ids_spec(size as nat),
            Err(e) => size == 0 && e == PoolError::ZeroSize,
        },
{
    if size == 0 {
        return Err(PoolError::ZeroSize);
    }
    let mut ids: Vec<usize> = Vec::with_capacity(size);
    let mut id: usize = 0;
    while id < size
        invariant
            id <= size,
            ids@ == worker_ids_spec(id as nat),
        decreases size - id,
    {
        ids.push(id);
        id = id + 1;
        assert(ids@ =~= worker_ids_spec(id as nat));
    }
    Ok(ids)
}

} // verus!
