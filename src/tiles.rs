use vstd::prelude::*;

verus! {

/// The rows `0..height` that worker `worker` renders when rows are dealt out
/// round-robin among `n_workers`, in ascending order.
pub open spec fn owned_rows(height: nat, n_workers: nat, worker: nat) -> Seq<usize>
    decreases height,
{
    if height == 0 {
        Seq::empty()
    } else {
        let earlier = owned_rows((height - 1) as nat, n_workers, worker);
        if (height - 1) as int % n_workers as int == worker as int {
            earlier.push((height - 1) as usize)
        } else {
            earlier
        }
    }
}

/// The worker that renders row `y`: rows are interleaved by `y mod n_workers`.
pub fn row_owner(y: usize, n_workers: usize) -> (w: usize)
    requires
        n_workers > 0,
    ensures
        w == y % n_workers,
        w < n_workers,
{
    y % n_workers
}

/// The rows that `worker` renders in an image of `height` rows.
pub fn worker_rows(height: usize, n_workers: usize, worker: usize) -> (rows: Vec<usize>)
    requires
        n_workers > 0,
    ensures
        rows@ == owned_rows(height as nat, n_workers as nat, worker as nat),
{
    let mut rows: Vec<usize> = Vec::new();
    let mut y: usize = 0;
    while y < height
        invariant
            y <= height,
            n_workers > 0,
            rows@ == owned_rows(y as nat, n_workers as nat, worker as nat),
        decreases height - y,
    {
        if y % n_workers == worker {
            rows.push(y);
        }
        y = y + 1;
    }
    rows
}

/// The seed of the random stream used for row `y`: it depends on the base seed
/// and the row alone, never on which worker renders the row.
pub fn row_seed(base: u64, y: usize) -> (s: u64)
    ensures
        s as int == (base as int + y as int) % 0x1_0000_0000_0000_0000int,
{
    base.wrapping_add(y as u64)
}

/// A row is in a worker's list exactly when it lies in the image and the
/// worker owns it; the list is strictly ascending.
pub proof fn lemma_owned_rows_members(height: nat, n_workers: nat, worker: nat)
    requires
        n_workers > 0,
        height <= usize::MAX,
    ensures
        forall|y: usize|
            owned_rows(height, n_workers, worker).contains(y) <==> (y < height && y as int
                % n_workers as int == worker as int),
        forall|i: int, j: int|
            0 <= i < j < owned_rows(height, n_workers, worker).len() ==> owned_rows(
                height,
                n_workers,
                worker,
            )[i] < owned_rows(height, n_workers, worker)[j],
    decreases height,
{
    if height > 0 {
        let last = (height - 1) as usize;
        lemma_owned_rows_members((height - 1) as nat, n_workers, worker);
        let earlier = owned_rows((height - 1) as nat, n_workers, worker);
        let cur = owned_rows(height, n_workers, worker);
        if last as int % n_workers as int == worker as int {
            assert(cur == earlier.push(last));
            assert forall|y: usize| cur.contains(y) <==> (y < height && y as int % n_workers as int
                == worker as int) by {
                if cur.contains(y) && y != last {
                    let k = choose|k: int| 0 <= k < cur.len() && cur[k] == y;
                    assert(earlier[k] == y);
                }
                if y == last {
                    assert(cur[earlier.len() as int] == y);
                } else if earlier.contains(y) {
                    let k = choose|k: int| 0 <= k < earlier.len() && earlier[k] == y;
                    assert(cur[k] == y);
                }
            }
            assert forall|i: int, j: int| 0 <= i < j < cur.len() implies cur[i] < cur[j] by {
                if j == earlier.len() {
                    assert(earlier.contains(earlier[i]));
                } else {
                    assert(cur[i] == earlier[i] && cur[j] == earlier[j]);
                }
            }
        } else {
            assert(cur == earlier);
        }
    }
}

/// Round-robin rows form a partition: every row of the image is rendered by
/// exactly one worker, so every pixel of the merged image comes from exactly
/// one worker's buffer.
pub proof fn lemma_rows_partition(height: nat, n_workers: nat, y: usize)
    requires
        n_workers > 0,
        height <= usize::MAX,
        y < height,
    ensures
        owned_rows(height, n_workers, (y as int % n_workers as int) as nat).contains(y),
        forall|w: nat|
            w < n_workers && owned_rows(height, n_workers, w).contains(y) ==> w == y as int
                % n_workers as int,
{
    lemma_owned_rows_members(height, n_workers, (y as int % n_workers as int) as nat);
    assert forall|w: nat|
        w < n_workers && owned_rows(height, n_workers, w).contains(y) implies w == y as int
            % n_workers as int by {
        lemma_owned_rows_members(height, n_workers, w);
    }
}

} // verus!
