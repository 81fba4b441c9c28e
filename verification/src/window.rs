//! The mathematical model of the sample window: a ring of slots with a write
//! cursor, and what feeding samples into it does.

use vstd::prelude::*;

verus! {

/// The sum of a sequence of samples.
pub open spec fn sum(samples: Seq<u32>) -> int
    decreases samples.len(),
{
    if samples.len() == 0 {
        0
    } else {
        sum(samples.drop_last()) + samples.last()
    }
}

/// A sample window as a value: the slots in storage order and the index of the
/// slot that the next sample overwrites.
pub ghost struct Window {
    pub slots: Seq<u32>,
    pub cursor: nat,
}

impl Window {
    /// A window has at least one slot and its cursor points at one of them.
    pub open spec fn wf(self) -> bool {
        &&& self.slots.len() >= 1
        &&& self.cursor < self.slots.len()
    }

    /// The number of slots.
    pub open spec fn size(self) -> nat {
        self.slots.len()
    }

    /// The window of `size` slots before any sample: all zero, cursor at the start.
    pub open spec fn zeroed(size: nat) -> Window {
        Window { slots: Seq::new(size, |i: int| 0u32), cursor: 0 }
    }

    /// The window after one more sample: the slot under the cursor is
    /// overwritten and the cursor moves on, wrapping at the end.
    pub open spec fn push(self, raw: u32) -> Window {
        Window {
            slots: self.slots.update(self.cursor as int, raw),
            cursor: ((self.cursor as int + 1) % (self.slots.len() as int)) as nat,
        }
    }

    /// The window after a run of samples, fed oldest first.
    pub open spec fn feed(self, samples: Seq<u32>) -> Window
        decreases samples.len(),
    {
        if samples.len() == 0 {
            self
        } else {
            self.feed(samples.drop_last()).push(samples.last())
        }
    }

    /// The sum of all slots.
    pub open spec fn total(self) -> int {
        sum(self.slots)
    }

    /// The smoothed value: the sum of all slots over their number, rounded down.
    pub open spec fn mean(self) -> int {
        self.total() / (self.slots.len() as int)
    }

    /// The slots by age, oldest first: the window read as a queue.
    pub open spec fn recent(self) -> Seq<u32> {
        self.slots.subrange(self.cursor as int, self.slots.len() as int)
            + self.slots.subrange(0, self.cursor as int)
    }
}

/// The sum of two runs of samples joined is the sum of their sums.
pub proof fn lemma_sum_concat(a: Seq<u32>, b: Seq<u32>)
    ensures
        sum(a + b) == sum(a) + sum(b),
    decreases b.len(),
{
    if b.len() == 0 {
        assert(a + b =~= a);
    } else {
        assert((a + b).drop_last() =~= a + b.drop_last());
        assert((a + b).last() == b.last());
        lemma_sum_concat(a, b.drop_last());
    }
}

/// A run of samples sums to no less than zero and to no more than its length
/// times the largest sample there is.
pub proof fn lemma_sum_bounds(samples: Seq<u32>)
    ensures
        0 <= sum(samples) <= samples.len() * (u32::MAX as int),
    decreases samples.len(),
{
    if samples.len() > 0 {
        lemma_sum_bounds(samples.drop_last());
        assert((samples.len() - 1) * (u32::MAX as int) + (u32::MAX as int) == samples.len() * (
        u32::MAX as int)) by (nonlinear_arith);
    }
}

/// The mean of a window is a sample: no less than zero and no more than the
/// largest sample there is.
pub proof fn lemma_mean_fits(win: Window)
    requires
        win.wf(),
    ensures
        0 <= win.mean() <= u32::MAX,
{
    lemma_sum_bounds(win.slots);
    let total = win.total();
    let size = win.slots.len() as int;
    assert(0 <= total / size <= u32::MAX) by (nonlinear_arith)
        requires
            0 <= total <= size * (u32::MAX as int),
            size > 0,
    ;
}

/// A run of zeros sums to zero.
pub proof fn lemma_sum_zeros(samples: Seq<u32>)
    requires
        forall|i: int| 0 <= i < samples.len() ==> samples[i] == 0,
    ensures
        sum(samples) == 0,
    decreases samples.len(),
{
    if samples.len() > 0 {
        lemma_sum_zeros(samples.drop_last());
    }
}

/// The last `count` samples of a run.
pub open spec fn latest(samples: Seq<u32>, count: nat) -> Seq<u32>
    recommends
        count <= samples.len(),
{
    samples.subrange(samples.len() - count, samples.len() as int)
}

/// Taking a sample keeps the window's shape and works on it as on a queue: the
/// oldest sample leaves and the new one becomes the youngest.
pub proof fn lemma_push_is_queue(win: Window, raw: u32)
    requires
        win.wf(),
    ensures
        win.push(raw).wf(),
        win.push(raw).size() == win.size(),
        win.push(raw).recent() == win.recent().drop_first().push(raw),
{
    let size = win.slots.len() as int;
    let at = win.cursor as int;
    if at + 1 < size {
        assert((at + 1) % size == at + 1) by (nonlinear_arith)
            requires
                0 <= at + 1 < size,
        ;
    } else {
        assert(size % size == 0) by (nonlinear_arith)
            requires
                size > 0,
        ;
    }
    assert(win.push(raw).recent() =~= win.recent().drop_first().push(raw));
}

/// The slots sum to the same whether read in storage order or by age.
pub proof fn lemma_total_is_sum_of_recent(win: Window)
    requires
        win.wf(),
    ensures
        win.total() == sum(win.recent()),
{
    let size = win.slots.len() as int;
    let at = win.cursor as int;
    let front = win.slots.subrange(0, at);
    let back = win.slots.subrange(at, size);
    lemma_sum_concat(front, back);
    lemma_sum_concat(back, front);
    assert(front + back =~= win.slots);
}

/// Feeding a run of samples keeps the window's shape and leaves in it, by age,
/// the last samples of what it held followed by what was fed.
pub proof fn lemma_feed_is_queue(win: Window, samples: Seq<u32>)
    requires
        win.wf(),
    ensures
        win.feed(samples).wf(),
        win.feed(samples).size() == win.size(),
        win.feed(samples).recent() == latest(win.recent() + samples, win.size()),
    decreases samples.len(),
{
    if samples.len() == 0 {
        assert(latest(win.recent() + samples, win.size()) =~= win.recent());
    } else {
        let init = samples.drop_last();
        lemma_feed_is_queue(win, init);
        lemma_push_is_queue(win.feed(init), samples.last());
        assert(latest(win.recent() + init, win.size()).drop_first().push(samples.last())
            =~= latest(win.recent() + samples, win.size()));
    }
}

/// Sliding-window correctness: once a window, whatever it held, has taken at
/// least as many samples as it has slots, its slots sum to the sum of the last
/// samples fed, one per slot, and its mean is their mean.
pub proof fn lemma_sliding_window(win: Window, samples: Seq<u32>)
    requires
        win.wf(),
        samples.len() >= win.size(),
    ensures
        win.feed(samples).total() == sum(latest(samples, win.size())),
        win.feed(samples).mean() == sum(latest(samples, win.size())) / (win.size() as int),
{
    lemma_feed_is_queue(win, samples);
    lemma_total_is_sum_of_recent(win.feed(samples));
    assert(latest(win.recent() + samples, win.size()) =~= latest(samples, win.size()));
}

/// Warm-up: while a zero-seeded window has taken no more samples than it has
/// slots, its slots sum to the sum of all samples fed, so that its mean counts
/// each slot not yet written as zero.
pub proof fn lemma_warm_up(size: nat, samples: Seq<u32>)
    requires
        size >= 1,
        samples.len() <= size,
    ensures
        Window::zeroed(size).feed(samples).total() == sum(samples),
        Window::zeroed(size).feed(samples).mean() == sum(samples) / (size as int),
{
    let win = Window::zeroed(size);
    lemma_feed_is_queue(win, samples);
    lemma_total_is_sum_of_recent(win.feed(samples));
    let seed = latest(win.recent(), (size - samples.len()) as nat);
    assert(latest(win.recent() + samples, size) =~= seed + samples);
    lemma_sum_zeros(seed);
    lemma_sum_concat(seed, samples);
}

} // verus!
