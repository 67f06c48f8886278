//! The three ways of computing the next generation. Each reads only the
//! unchanged snapshot and builds a fresh grid, and all three give the same
//! result.

use vstd::prelude::*;
use rayon::iter::{IndexedParallelIterator, IntoParallelIterator, ParallelIterator};
use crate::cell::Cell;
use crate::grid::{Grid, grid_wf, next_grid, next_cell_spec, next_cell_at};

verus! {

/// How a tick distributes its work.
#[derive(Clone, Copy, Debug, PartialEq, Eq, Structural)]
pub enum Scheduler {
    /// One pass over the cells in row-major order.
    Sequential,
    /// A parallel map over the cell indices.
    DataParallel,
    /// Contiguous ranges of cells, one per worker, joined by worker id.
    WorkerPool,
}

/// Relies on rayon's `IndexedParallelIterator::collect_into_vec` over
/// `(0..n).into_par_iter().map(f)`: the result holds `f(i)` at position `i`
/// for every `i < n`, and every call of `f` has finished when it returns.
#[verifier::external_body]
fn par_map_range<T: Send, F: Fn(usize) -> T + Sync + Send>(n: usize, f: F) -> (r: Vec<T>)
    requires
        forall|i: usize| i < n ==> #[trigger] f.requires((i,)),
    ensures
        r@.len() == n,
        forall|i: int| 0 <= i < n ==> f.ensures((i as usize,), #[trigger] r@[i]),
{
    let mut out = Vec::new();
    (0..n).into_par_iter().map(f).collect_into_vec(&mut out);
    out
}

/// Relies on rayon's `current_num_threads`: the number of threads of the
/// pool that parallel work runs on. Nothing is assumed of its value.
#[verifier::external_body]
fn pool_threads() -> (r: usize) {
    rayon::current_num_threads()
}

/// Computes the next state of the cells `start..end`, in order.
pub fn compute_range(grid: &Grid, width: usize, height: usize, start: usize, end: usize) -> (r: Vec<Cell>)
    requires
        grid_wf(grid@, width as int, height as int),
        start <= end <= grid@.len(),
    ensures
        r@ == next_grid(grid@, width as int, height as int).subrange(start as int, end as int),
{
    let ghost next = next_grid(grid@, width as int, height as int);
    let mut out: Vec<Cell> = Vec::new();
    let mut i: usize = start;
    while i < end
        invariant
            grid_wf(grid@, width as int, height as int),
            start <= i <= end <= grid@.len(),
            next == next_grid(grid@, width as int, height as int),
            out@ == next.subrange(start as int, i as int),
        decreases end - i,
    {
        let c = next_cell_at(grid, width, height, i);
        out.push(c);
        i += 1;
        assert(out@ =~= next.subrange(start as int, i as int));
    }
    out
}

/// The next generation, computed cell by cell in row-major order.
pub fn compute_sequential(grid: &Grid, width: usize, height: usize) -> (r: Grid)
    requires
        grid_wf(grid@, width as int, height as int),
    ensures
        r@ == next_grid(grid@, width as int, height as int),
{
    let r = compute_range(grid, width, height, 0, grid.len());
    assert(r@ =~= next_grid(grid@, width as int, height as int));
    r
}

/// The next generation, computed as a parallel map over the cell indices.
pub fn compute_data_parallel(grid: &Grid, width: usize, height: usize) -> (r: Grid)
    requires
        grid_wf(grid@, width as int, height as int),
    ensures
        r@ == next_grid(grid@, width as int, height as int),
{
    let n = grid.len();
    let next_at = |i: usize| -> (c: Cell)
        requires
            grid_wf(grid@, width as int, height as int),
            i < grid@.len(),
        ensures
            c == next_cell_spec(grid@, width as int, height as int, i as int),
    {
        next_cell_at(grid, width, height, i)
    };
    let r = par_map_range(n, next_at);
    assert(r@ =~= next_grid(grid@, width as int, height as int));
    r
}

/// `bounds` cuts `0..n` into `workers` consecutive ranges
/// `bounds[k]..bounds[k + 1]`.
pub open spec fn bounds_wf(bounds: Seq<usize>, workers: int, n: int) -> bool {
    &&& bounds.len() == workers + 1
    &&& bounds[0] == 0
    &&& bounds[workers] == n
    &&& forall|i: int, j: int| 0 <= i <= j <= workers ==> bounds[i] <= bounds[j]
}

/// Splits `0..n` into `workers` contiguous, non-empty ranges whose sizes
/// differ by at most one: the first `n % workers` ranges take one cell more.
pub fn partition(n: usize, workers: usize) -> (bounds: Vec<usize>)
    requires
        1 <= workers <= n,
    ensures
        bounds_wf(bounds@, workers as int, n as int),
        forall|k: int|
            0 <= k < workers ==> #[trigger] bounds@[k + 1] - bounds@[k] == n / workers + (if k < n
                % workers {
                1int
            } else {
                0int
            }),
{
    let base = n / workers;
    let extra = n % workers;
    proof {
        vstd::arithmetic::div_mod::lemma_fundamental_div_mod(n as int, workers as int);
        vstd::arithmetic::mul::lemma_mul_is_commutative(workers as int, base as int);
        assert(base >= 1) by (nonlinear_arith)
            requires
                base * workers + extra == n,
                extra < workers,
                workers <= n,
        ;
    }
    let mut bounds: Vec<usize> = Vec::new();
    bounds.push(0);
    let mut b: usize = 0;
    let mut k: usize = 0;
    while k < workers
        invariant
            1 <= workers <= n,
            base == n / workers,
            extra == n % workers,
            base * workers + extra == n,
            base >= 1,
            0 <= extra < workers,
            k <= workers,
            b == k * base + (if k < extra { k } else { extra }),
            bounds@.len() == k + 1,
            bounds@[0] == 0,
            bounds@[k as int] == b,
            forall|i: int, j: int| 0 <= i <= j <= k ==> bounds@[i] <= bounds@[j],
            forall|i: int|
                0 <= i < k ==> #[trigger] bounds@[i + 1] - bounds@[i] == base + (if i < extra {
                    1int
                } else {
                    0int
                }),
        decreases workers - k,
    {
        proof {
            let kk = k as int;
            assert(kk * base + base == (kk + 1) * base) by (nonlinear_arith);
            assert((kk + 1) * base <= workers * base) by (nonlinear_arith)
                requires
                    kk + 1 <= workers,
                    base >= 0,
            ;
            vstd::arithmetic::mul::lemma_mul_is_commutative(workers as int, base as int);
            if k < extra {
                assert(base + 1 <= n) by (nonlinear_arith)
                    requires
                        base >= 1,
                        workers >= 2,
                        base * workers + extra == n,
                ;
            }
        }
        let step: usize = if k < extra { base + 1 } else { base };
        b = b + step;
        bounds.push(b);
        k = k + 1;
    }
    proof {
        vstd::arithmetic::mul::lemma_mul_is_commutative(workers as int, base as int);
    }
    bounds
}

/// The work of one worker: its id and the next state of its range.
pub fn worker_job(grid: &Grid, width: usize, height: usize, bounds: &Vec<usize>, id: usize) -> (r: (
    usize,
    Vec<Cell>,
))
    requires
        grid_wf(grid@, width as int, height as int),
        bounds_wf(bounds@, bounds@.len() - 1, grid@.len() as int),
        id + 1 < bounds@.len(),
    ensures
        r.0 == id,
        r.1@ == next_grid(grid@, width as int, height as int).subrange(
            bounds@[id as int] as int,
            bounds@[id + 1] as int,
        ),
{
    let last = bounds.len() - 1;
    let start = bounds[id];
    let end = bounds[id + 1];
    assert(bounds@[id + 1] <= bounds@[last as int]);
    (id, compute_range(grid, width, height, start, end))
}

/// Some entry carries the id `w`.
pub open spec fn has_id(results: Seq<(usize, Vec<Cell>)>, w: int) -> bool {
    exists|j: int| 0 <= j < results.len() && #[trigger] results[j].0 == w
}

/// Each id `0..results.len()` stands in exactly one entry.
pub open spec fn ids_wf(results: Seq<(usize, Vec<Cell>)>) -> bool {
    &&& forall|j: int| 0 <= j < results.len() ==> #[trigger] results[j].0 < results.len()
    &&& forall|w: int| 0 <= w < results.len() ==> #[trigger] has_id(results, w)
    &&& forall|i: int, j: int| 0 <= i < j < results.len() ==> results[i].0 != results[j].0
}

/// The cells of the entry whose id is `w`.
pub open spec fn chunk_of(results: Seq<(usize, Vec<Cell>)>, w: int) -> Seq<Cell> {
    results[choose|j: int| 0 <= j < results.len() && results[j].0 == w].1@
}

/// The cells of the entries with ids `0..k`, joined in order of id.
pub open spec fn joined(results: Seq<(usize, Vec<Cell>)>, k: nat) -> Seq<Cell>
    decreases k,
{
    if k == 0 {
        Seq::empty()
    } else {
        joined(results, (k - 1) as nat) + chunk_of(results, k - 1)
    }
}

/// Joins the workers' results in order of worker id, whatever order they
/// arrive in.
pub fn join_by_id(results: &Vec<(usize, Vec<Cell>)>) -> (r: Vec<Cell>)
    requires
        ids_wf(results@),
    ensures
        r@ == joined(results@, results@.len()),
{
    let k = results.len();
    let mut out: Vec<Cell> = Vec::new();
    let mut w: usize = 0;
    while w < k
        invariant
            k == results@.len(),
            ids_wf(results@),
            w <= k,
            out@ == joined(results@, w as nat),
        decreases k - w,
    {
        let mut j: usize = 0;
        while j < k && results[j].0 != w
            invariant
                k == results@.len(),
                j <= k,
                forall|i: int| 0 <= i < j ==> results@[i].0 != w,
            decreases k - j,
        {
            j += 1;
        }
        proof {
            assert(has_id(results@, w as int));
            if j == k {
                let jj = choose|jj: int| 0 <= jj < results.len() && #[trigger] results@[jj].0 == w;
                assert(results@[jj].0 == w);
            }
            let c = choose|jj: int| 0 <= jj < results.len() && results@[jj].0 == w;
            assert(c == j as int) by {
                if c < j {
                    assert(results@[c].0 != results@[j as int].0);
                } else if c > j {
                    assert(results@[j as int].0 != results@[c].0);
                }
            }
        }
        let chunk = &results[j].1;
        let ghost before = out@;
        let mut i: usize = 0;
        while i < chunk.len()
            invariant
                out@ == before + chunk@.subrange(0, i as int),
                i <= chunk@.len(),
            decreases chunk@.len() - i,
        {
            out.push(chunk[i]);
            i += 1;
            assert(out@ =~= before + chunk@.subrange(0, i as int));
        }
        assert(chunk@.subrange(0, i as int) =~= chunk@);
        w += 1;
    }
    out
}

/// Cutting a sequence at increasing bounds and joining the pieces back in
/// order of id gives the sequence up to the last bound joined.
pub proof fn lemma_join_pieces(results: Seq<(usize, Vec<Cell>)>, s: Seq<Cell>, bounds: Seq<usize>, k: nat)
    requires
        bounds_wf(bounds, results.len() as int, s.len() as int),
        forall|w: int| 0 <= w < results.len() ==> #[trigger] chunk_of(results, w) == s.subrange(
            bounds[w] as int,
            bounds[w + 1] as int,
        ),
        k <= results.len(),
    ensures
        joined(results, k) == s.subrange(0, bounds[k as int] as int),
    decreases k,
{
    if k == 0 {
        assert(s.subrange(0, 0) =~= Seq::<Cell>::empty());
    } else {
        lemma_join_pieces(results, s, bounds, (k - 1) as nat);
        let w = k - 1;
        assert(chunk_of(results, w) == s.subrange(bounds[w] as int, bounds[w + 1] as int));
        assert(bounds[w] <= bounds[k as int]);
        assert(bounds[k as int] <= bounds[results.len() as int]);
        assert(joined(results, k) =~= s.subrange(0, bounds[k as int] as int));
    }
}

/// The number of workers actually used for `n` cells when `requested` are
/// asked for: at least one, and no more than there are cells.
pub open spec fn worker_count(requested: int, n: int) -> int {
    if requested < 1 {
        1
    } else if requested > n {
        n
    } else {
        requested
    }
}

/// The next generation, computed by a pool of workers. The cells are cut
/// into one contiguous range per worker (see `worker_count`); each worker
/// computes its range against the snapshot, and the pieces are joined in
/// order of worker id.
pub fn compute_worker_pool(grid: &Grid, width: usize, height: usize, workers: usize) -> (r: Grid)
    requires
        grid_wf(grid@, width as int, height as int),
    ensures
        r@ == next_grid(grid@, width as int, height as int),
{
    let n = grid.len();
    proof {
        assert(n >= 1) by (nonlinear_arith)
            requires
                width > 0,
                height > 0,
                n == width * height,
        ;
    }
    let count: usize = if workers < 1 {
        1
    } else if workers > n {
        n
    } else {
        workers
    };
    let bounds = partition(n, count);
    let job = |id: usize| -> (r: (usize, Vec<Cell>))
        requires
            grid_wf(grid@, width as int, height as int),
            bounds_wf(bounds@, bounds@.len() - 1, grid@.len() as int),
            id + 1 < bounds@.len(),
        ensures
            r.0 == id,
            r.1@ == next_grid(grid@, width as int, height as int).subrange(
                bounds@[id as int] as int,
                bounds@[id + 1] as int,
            ),
    {
        worker_job(grid, width, height, &bounds, id)
    };
    let results = par_map_range(count, job);
    let ghost next = next_grid(grid@, width as int, height as int);
    proof {
        assert forall|j: int| 0 <= j < results@.len() implies #[trigger] results@[j].0 == j by {
            assert(job.ensures((j as usize,), results@[j]));
        }
        assert forall|w: int| 0 <= w < results@.len() implies #[trigger] has_id(results@, w) by {
            assert(results@[w].0 == w);
        }
        assert forall|w: int| 0 <= w < results@.len() implies #[trigger] chunk_of(results@, w)
            == next.subrange(bounds@[w] as int, bounds@[w + 1] as int) by {
            assert(results@[w].0 == w);
            assert(job.ensures((w as usize,), results@[w]));
            let c = choose|jj: int| 0 <= jj < results@.len() && results@[jj].0 == w;
            assert(results@[c].0 == c);
        }
        assert(ids_wf(results@));
        lemma_join_pieces(results@, next, bounds@, count as nat);
        assert(next.subrange(0, n as int) =~= next);
    }
    join_by_id(&results)
}

/// The next generation, computed with the given scheduler. Every scheduler
/// gives the same grid.
pub fn compute_next(grid: &Grid, width: usize, height: usize, scheduler: Scheduler) -> (r: Grid)
    requires
        grid_wf(grid@, width as int, height as int),
    ensures
        r@ == next_grid(grid@, width as int, height as int),
{
    match scheduler {
        Scheduler::Sequential => compute_sequential(grid, width, height),
        Scheduler::DataParallel => compute_data_parallel(grid, width, height),
        Scheduler::WorkerPool => compute_worker_pool(grid, width, height, pool_threads()),
    }
}

} // verus!
