use vstd::prelude::*;
use vstd::set_lib::*;

verus! {

/// The work channel as a release finds it: `jobs` job messages still queued,
/// followed by the `workers` termination messages that the release sends, in
/// FIFO order. `true` marks a job, `false` a termination message.
pub open spec fn release_queue(jobs: nat, workers: nat) -> Seq<bool> {
    Seq::new(jobs + workers, |i: int| i < jobs)
}

/// A way the pool's workers can take the messages of `queue` in order:
/// message `i` goes to worker `who[i]`, which is one of the pool's `workers`,
/// and no worker takes a message after it has taken a termination message.
pub open spec fn valid_delivery(queue: Seq<bool>, who: Seq<nat>, workers: nat) -> bool {
    &&& who.len() <= queue.len()
    &&& forall|i: int| 0 <= i < who.len() ==> #[trigger] who[i] < workers
    &&& forall|i: int, j: int|
        0 <= i < j < who.len() && #[trigger] who[i] == #[trigger] who[j] ==> queue[i]
}

/// Whether worker `w` took the termination message at position `i`.
pub open spec fn stopped_at(queue: Seq<bool>, who: Seq<nat>, w: nat, i: int) -> bool {
    0 <= i < who.len() && !queue[i] && who[i] == w
}

/// Whether worker `w` has taken a termination message among the first
/// `who.len()` messages of `queue`.
pub open spec fn has_stopped(queue: Seq<bool>, who: Seq<nat>, w: nat) -> bool {
    exists|i: int| stopped_at(queue, who, w, i)
}

/// Whether worker `w` took exactly one termination message.
pub open spec fn stops_once(queue: Seq<bool>, who: Seq<nat>, w: nat) -> bool {
    exists|i: int|
        stopped_at(queue, who, w, i) && forall|j: int| stopped_at(queue, who, w, j) ==> j == i
}

/// The workers that took the termination messages at positions `lo..hi`.
spec fn takers(who: Seq<nat>, lo: int, hi: int) -> Set<int> {
    set_int_range(lo, hi).map(|i: int| who[i] as int)
}

/// The termination messages at positions `lo..hi` of a delivery went to
/// distinct workers, so as many workers took them as there were messages.
proof fn lemma_takers_len(jobs: nat, workers: nat, who: Seq<nat>, lo: int, hi: int)
    requires
        valid_delivery(release_queue(jobs, workers), who, workers),
        jobs <= lo <= hi <= who.len(),
    ensures
        takers(who, lo, hi).finite(),
        takers(who, lo, hi).len() == hi - lo,
        takers(who, lo, hi).subset_of(set_int_range(0, workers as int)),
{
    let q = release_queue(jobs, workers);
    let f = |i: int| who[i] as int;
    lemma_int_range(lo, hi);
    assert forall|a: int, b: int|
        set_int_range(lo, hi).contains(a) && set_int_range(lo, hi).contains(b) && #[trigger] f(a)
            == #[trigger] f(b) implies a == b by {
        if a < b {
            assert(who[a] == who[b]);
            assert(!q[a]);
        } else if b < a {
            assert(who[b] == who[a]);
            assert(!q[b]);
        }
    }
    lemma_map_size(set_int_range(lo, hi), takers(who, lo, hi), f);
    assert forall|w: int| takers(who, lo, hi).contains(w) implies set_int_range(
        0,
        workers as int,
    ).contains(w) by {
        let i = choose|i: int| set_int_range(lo, hi).contains(i) && f(i) == w;
        assert(who[i] < workers);
    }
}

/// Once a release has put one termination message per worker behind the
/// queued jobs, and the workers take messages in channel order, every worker
/// takes exactly one termination message, whichever worker takes which.
pub proof fn lemma_each_worker_stops_once(jobs: nat, workers: nat, who: Seq<nat>)
    requires
        valid_delivery(release_queue(jobs, workers), who, workers),
        who.len() == jobs + workers,
    ensures
        forall|w: nat| w < workers ==> #[trigger] stops_once(release_queue(jobs, workers), who, w),
{
    let q = release_queue(jobs, workers);
    let lo = jobs as int;
    let hi = (jobs + workers) as int;
    lemma_takers_len(jobs, workers, who, lo, hi);
    lemma_int_range(0, workers as int);
    lemma_subset_equality(takers(who, lo, hi), set_int_range(0, workers as int));
    assert forall|w: nat| w < workers implies #[trigger] stops_once(q, who, w) by {
        assert(set_int_range(0, workers as int).contains(w as int));
        let i = choose|i: int| set_int_range(lo, hi).contains(i) && who[i] as int == w as int;
        assert(stopped_at(q, who, w, i));
        assert forall|j: int| stopped_at(q, who, w, j) implies j == i by {
            if j < i {
                assert(who[j] == who[i]);
            } else if i < j {
                assert(who[i] == who[j]);
            }
        }
    }
}

/// While a release's messages are not all taken, some worker has not yet
/// taken a termination message and can take the next one: the release never
/// waits on a channel that no running worker reads.
pub proof fn lemma_some_worker_running(jobs: nat, workers: nat, who: Seq<nat>)
    requires
        workers > 0,
        valid_delivery(release_queue(jobs, workers), who, workers),
        who.len() < jobs + workers,
    ensures
        exists|w: nat| w < workers && !has_stopped(release_queue(jobs, workers), who, w),
{
    let q = release_queue(jobs, workers);
    let lo = if who.len() < jobs {
        who.len() as int
    } else {
        jobs as int
    };
    let hi = who.len() as int;
    lemma_int_range(0, workers as int);
    if jobs <= who.len() {
        lemma_takers_len(jobs, workers, who, lo, hi);
    } else {
        assert(takers(who, lo, hi) =~= Set::empty());
    }
    let t = takers(who, lo, hi);
    assert(t.len() < workers);
    if !(exists|w: nat| w < workers && !has_stopped(q, who, w)) {
        assert forall|w: int| set_int_range(0, workers as int).contains(w) implies t.contains(
            w,
        ) by {
            let wn = w as nat;
            assert(has_stopped(q, who, wn));
            let i = choose|i: int| stopped_at(q, who, wn, i);
            assert(set_int_range(lo, hi).contains(i));
        }
        lemma_len_subset(set_int_range(0, workers as int), t);
    }
}

/// Every job queued ahead of a release's termination messages is taken by
/// exactly one of the pool's workers, and that worker has not stopped when
/// it takes it, so the job is run.
pub proof fn lemma_jobs_reach_running_workers(jobs: nat, workers: nat, who: Seq<nat>, i: int)
    requires
        valid_delivery(release_queue(jobs, workers), who, workers),
        0 <= i < jobs,
        i < who.len(),
    ensures
        who[i] < workers,
        !has_stopped(release_queue(jobs, workers), who.take(i), who[i]),
{
    let q = release_queue(jobs, workers);
    if has_stopped(q, who.take(i), who[i]) {
        let j = choose|j: int| stopped_at(q, who.take(i), who[i], j);
        assert(who[j] == who[i]);
    }
}

} // verus!
