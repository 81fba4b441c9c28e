//! The moving-average smoother: a ring buffer of the latest samples whose mean
//! is reported in place of each raw sample.
//!
//! Samples and smoothed values are fixed-point numbers held in a `u32`. The
//! smoother does not care for the unit and never clamps; the mean is the exact
//! sum of the slots divided by their number, rounded down.

use vstd::prelude::*;
use crate::error::EngineError;
use crate::window::{Window, sum, lemma_sum_bounds};

verus! {

/// A fixed-size window over the most recent samples.
#[derive(Debug)]
pub struct Smoother {
    slots: Vec<u32>,
    cursor: usize,
}

impl View for Smoother {
    type V = Window;

    closed spec fn view(&self) -> Window {
        Window { slots: self.slots@, cursor: self.cursor as nat }
    }
}

/// The sum of a vector of samples.
fn total_of(slots: &Vec<u32>) -> (total: u128)
    ensures
        total == sum(slots@),
{
    let mut total: u128 = 0;
    let mut i: usize = 0;
    while i < slots.len()
        invariant
            i <= slots.len(),
            total == sum(slots@.subrange(0, i as int)),
        decreases slots.len() - i,
    {
        proof {
            let upto = slots@.subrange(0, i + 1);
            assert(upto.drop_last() =~= slots@.subrange(0, i as int));
            assert(upto.last() == slots@[i as int]);
            lemma_sum_bounds(slots@.subrange(0, i as int));
            assert(i * (u32::MAX as int) <= (usize::MAX as int) * (u32::MAX as int))
                by (nonlinear_arith)
                requires
                    0 <= i <= usize::MAX,
            ;
        }
        total = total + slots[i] as u128;
        i = i + 1;
    }
    proof {
        assert(slots@.subrange(0, i as int) =~= slots@);
    }
    total
}

impl Smoother {
    #[verifier::type_invariant]
    spec fn inv(&self) -> bool {
        self@.wf()
    }

    /// Makes a smoother of `window_size` slots, all zero. A window without
    /// slots has no mean, so a size of zero is refused.
    pub fn new(window_size: usize) -> (made: Result<Smoother, EngineError>)
        ensures
            window_size == 0 <==> made is Err,
            made matches Err(e) ==> e == EngineError::InvalidWindowSize,
            made matches Ok(smoother) ==> smoother@ == Window::zeroed(window_size as nat),
    {
        if window_size == 0 {
            return Err(EngineError::InvalidWindowSize);
        }
        let mut slots: Vec<u32> = Vec::new();
        while slots.len() < window_size
            invariant
                slots.len() <= window_size,
                forall|i: int| 0 <= i < slots.len() ==> slots[i] == 0,
            decreases window_size - slots.len(),
        {
            slots.push(0);
        }
        assert(slots@ =~= Window::zeroed(window_size as nat).slots);
        Ok(Smoother { slots, cursor: 0 })
    }

    /// Takes one raw sample: writes it over the oldest slot, moves the cursor
    /// on, and returns the mean of all slots as they now stand.
    pub fn update(&mut self, raw: u32) -> (smoothed: u32)
        ensures
            final(self)@ == old(self)@.push(raw),
            final(self)@.wf(),
            smoothed == final(self)@.mean(),
    {
        proof {
            use_type_invariant(&*self);
        }
        let size = self.slots.len();
        let at = self.cursor;
        let next = if at + 1 == size { 0 } else { at + 1 };
        assert(next == (at as int + 1) % (size as int)) by {
            if at + 1 == size {
                assert((size as int) % (size as int) == 0) by (nonlinear_arith)
                    requires
                        size > 0,
                ;
            } else {
                assert((at as int + 1) % (size as int) == at + 1) by (nonlinear_arith)
                    requires
                        0 <= at + 1 < size,
                ;
            }
        }
        self.slots[at] = raw;
        self.cursor = next;
        self.mean()
    }

    /// The mean of all slots, rounded down.
    pub fn mean(&self) -> (smoothed: u32)
        ensures
            self@.wf(),
            smoothed == self@.mean(),
    {
        proof {
            use_type_invariant(self);
            lemma_sum_bounds(self.slots@);
        }
        let total = total_of(&self.slots);
        let size = self.slots.len() as u128;
        assert(total as int / size as int <= u32::MAX) by (nonlinear_arith)
            requires
                0 <= total <= size * (u32::MAX as int),
                size > 0,
        ;
        (total / size) as u32
    }

    /// The exact sum of all slots.
    pub fn total(&self) -> (total: u128)
        ensures
            total == self@.total(),
    {
        total_of(&self.slots)
    }

    /// The number of slots.
    pub fn window_size(&self) -> (size: usize)
        ensures
            self@.wf(),
            size == self@.size(),
    {
        proof {
            use_type_invariant(self);
        }
        self.slots.len()
    }

    /// The index of the slot that the next sample overwrites.
    pub fn cursor(&self) -> (cursor: usize)
        ensures
            self@.wf(),
            cursor == self@.cursor,
    {
        proof {
            use_type_invariant(self);
        }
        self.cursor
    }

    /// A copy of the slots in storage order.
    pub fn slots(&self) -> (slots: Vec<u32>)
        ensures
            slots@ == self@.slots,
    {
        let mut slots: Vec<u32> = Vec::new();
        let mut i: usize = 0;
        while i < self.slots.len()
            invariant
                i <= self.slots.len(),
                slots@ == self.slots@.subrange(0, i as int),
            decreases self.slots.len() - i,
        {
            slots.push(self.slots[i]);
            assert(slots@ =~= self.slots@.subrange(0, i + 1));
            i = i + 1;
        }
        assert(slots@ =~= self.slots@);
        slots
    }
}

} // verus!
