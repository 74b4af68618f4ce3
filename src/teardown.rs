use vstd::prelude::*;

verus! {

/// The next thing a pool that is being released does.
#[derive(Clone, Copy, Debug, PartialEq, Eq, Structural)]
pub enum TeardownStep {
    /// Send one termination message on the work channel.
    SendTerminate,
    /// Wait for the worker of this id to exit.
    Join(usize),
    /// Every worker has exited.
    Done,
}

/// Progress of a pool's release: how many termination messages were sent and
/// how many workers were joined. All messages go out before the first join, so
/// that no worker has to take its message in a given order.
pub struct Teardown {
    size: usize,
    sent: usize,
    joined: usize,
}

/// The model of a release in progress: (size, sent, joined).
pub type TeardownView = (nat, nat, nat);

/// A release that has not begun.
pub open spec fn teardown_init(size: nat) -> TeardownView {
    (size, 0, 0)
}

/// What a release does next from a given point.
pub open spec fn step_of(t: TeardownView) -> TeardownStep {
    if t.1 < t.0 {
        TeardownStep::SendTerminate
    } else if t.2 < t.0 {
        TeardownStep::Join(t.2 as usize)
    } else {
        TeardownStep::Done
    }
}

/// The point a release reaches after doing its next step.
pub open spec fn advance(t: TeardownView) -> TeardownView {
    if t.1 < t.0 {
        (t.0, t.1 + 1, t.2)
    } else if t.2 < t.0 {
        (t.0, t.1, t.2 + 1)
    } else {
        t
    }
}

/// The point a release of `size` workers reaches after `k` steps.
pub open spec fn teardown_after(size: nat, k: nat) -> TeardownView
    decreases k,
{
    if k == 0 {
        teardown_init(size)
    } else {
        advance(teardown_after(size, (k - 1) as nat))
    }
}

/// The `k`-th step of a release of `size` workers, counted from 0: first
/// `size` termination messages, then a join of each worker in id order.
pub open spec fn step_at(size: nat, k: nat) -> TeardownStep {
    if k < size {
        TeardownStep::SendTerminate
    } else if k < 2 * size {
        TeardownStep::Join((k - size) as usize)
    } else {
        TeardownStep::Done
    }
}

/// Where a release of `size` workers stands after `k` steps, in closed form.
proof fn lemma_teardown_after(size: nat, k: nat)
    ensures
        teardown_after(size, k) == (if k <= size {
            (size, k, 0nat)
        } else if k <= 2 * size {
            (size, size, (k - size) as nat)
        } else {
            (size, size, size)
        }),
    decreases k,
{
    if k > 0 {
        lemma_teardown_after(size, (k - 1) as nat);
    }
}

/// A release of `size` workers, driven from its start by `next_step`, sends
/// exactly `size` termination messages before it joins any worker, then joins
/// each worker once in id order, then is done for good.
pub proof fn lemma_teardown_order(size: nat, k: nat)
    ensures
        step_of(teardown_after(size, k)) == step_at(size, k),
{
    lemma_teardown_after(size, k);
}

impl View for Teardown {
    type V = TeardownView;

    closed spec fn view(&self) -> TeardownView {
        (self.size as nat, self.sent as nat, self.joined as nat)
    }
}

impl Teardown {
    /// No worker is joined before every termination message is sent, and
    /// neither count passes the pool's size.
    pub open spec fn wf(&self) -> bool {
        &&& self@.1 <= self@.0
        &&& self@.2 <= self@.0
        &&& self@.2 > 0 ==> self@.1 == self@.0
    }

    /// Begins the release of a pool of `size` workers.
    pub fn new(size: usize) -> (r: Teardown)
        ensures
            r.wf(),
            r@ == teardown_init(size as nat),
    {
        Teardown { size, sent: 0, joined: 0 }
    }

    /// Whether every worker has been joined.
    pub fn is_done(&self) -> (r: bool)
        requires
            self.wf(),
        ensures
            r == (step_of(self@) == TeardownStep::Done),
    {
        self.sent == self.size && self.joined == self.size
    }

    /// Gives the next step of the release and records it as done.
    pub fn next_step(&mut self) -> (r: TeardownStep)
        requires
            old(self).wf(),
        ensures
            final(self).wf(),
            r == step_of(old(self)@),
            final(self)@ == advance(old(self)@),
    {
        if self.sent < self.size {
            self.sent = self.sent + 1;
            TeardownStep::SendTerminate
        } else if self.joined < self.size {
            let id = self.joined;
            self.joined = self.joined + 1;
            TeardownStep::Join(id)
        } else {
            TeardownStep::Done
        }
    }
}

} // verus!
