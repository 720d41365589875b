//! The recent positions of a pointer.

use crate::fixed::clamp_wide;
use crate::geometry::{Pos2, Vec2};
use crate::time::Nanos;
use std::collections::VecDeque;
use vstd::prelude::*;

verus! {

/// How many positions outlive their age.
pub const MIN_LEN: usize = 2;

/// How many positions are kept at most.
pub const MAX_LEN: usize = 1000;

/// How long a position is kept.
pub const MAX_AGE: Nanos = 100_000_000;

/// Positions with the time at which each was seen, oldest first.
#[derive(Clone, Debug)]
pub struct History {
    values: VecDeque<(Nanos, Pos2)>,
}

/// The newest of the positions, as many as are kept.
pub open spec fn newest(values: Seq<(Nanos, Pos2)>) -> Seq<(Nanos, Pos2)> {
    if values.len() > MAX_LEN {
        values.skip(values.len() - MAX_LEN)
    } else {
        values
    }
}

/// The positions without those at the front that are too old.
pub open spec fn fresh(values: Seq<(Nanos, Pos2)>, now: Nanos) -> Seq<(Nanos, Pos2)>
    decreases values.len(),
{
    if values.len() > MIN_LEN && values[0].0 < now - MAX_AGE {
        fresh(values.skip(1), now)
    } else {
        values
    }
}

/// What is kept of the positions at the given time.
pub open spec fn flushed(values: Seq<(Nanos, Pos2)>, now: Nanos) -> Seq<(Nanos, Pos2)> {
    fresh(newest(values), now)
}

/// The time from the first position to the last.
pub open spec fn duration(values: Seq<(Nanos, Pos2)>) -> Nanos {
    if values.len() == 0 {
        0
    } else {
        crate::fixed::clamp(values.last().0 - values[0].0)
    }
}

/// The average velocity from the first position to the last, if time passed between them.
pub open spec fn velocity(values: Seq<(Nanos, Pos2)>) -> Option<Vec2> {
    if duration(values) > 0 {
        Some(values.last().1.minus(values[0].1).per_second(duration(values)))
    } else {
        None
    }
}

impl View for History {
    type V = Seq<(Nanos, Pos2)>;

    closed spec fn view(&self) -> Seq<(Nanos, Pos2)> {
        self.values@
    }
}

impl History {
    /// No positions yet.
    pub fn new() -> (r: History)
        ensures
            r@ == Seq::<(Nanos, Pos2)>::empty(),
    {
        History { values: VecDeque::new() }
    }

    /// The number of positions.
    pub fn len(&self) -> (r: usize)
        ensures
            r == self@.len(),
    {
        self.values.len()
    }

    /// Forgets all positions.
    pub fn clear(&mut self)
        ensures
            final(self)@ == Seq::<(Nanos, Pos2)>::empty(),
    {
        self.values.clear();
    }

    /// Adds a position, and forgets what is too old or too many by then.
    pub fn add(&mut self, now: Nanos, pos: Pos2)
        ensures
            final(self)@ == flushed(old(self)@.push((now, pos)), now),
    {
        self.values.push_back((now, pos));
        self.flush(now);
    }

    /// Forgets what is too old or too many.
    pub fn flush(&mut self, now: Nanos)
        ensures
            final(self)@ == flushed(old(self)@, now),
    {
        while self.values.len() > MAX_LEN
            invariant
                newest(self@) =~= newest(old(self)@),
            decreases self.values@.len(),
        {
            let _ = self.values.pop_front();
        }
        assert(self@ =~= newest(old(self)@));
        while self.values.len() > MIN_LEN
            invariant_except_break
                fresh(self@, now) == flushed(old(self)@, now),
            ensures
                self@ == flushed(old(self)@, now),
            decreases self.values@.len(),
        {
            let seen: Nanos = self.values[0].0;
            if (seen as i128) < now as i128 - MAX_AGE as i128 {
                let ghost before = self@;
                let _ = self.values.pop_front();
                assert(self@ =~= before.skip(1));
            } else {
                break;
            }
        }
    }

    /// The time from the first position to the last.
    pub fn duration(&self) -> (r: Nanos)
        ensures
            r == duration(self@),
    {
        let n: usize = self.values.len();
        if n == 0 {
            0
        } else {
            clamp_wide(self.values[n - 1].0 as i128 - self.values[0].0 as i128)
        }
    }

    /// The average velocity from the first position to the last, if time passed between them.
    pub fn velocity(&self) -> (r: Option<Vec2>)
        ensures
            r == velocity(self@),
    {
        let span: Nanos = self.duration();
        if span > 0 {
            let n: usize = self.values.len();
            Some(self.values[n - 1].1.minus(self.values[0].1).per_second(span))
        } else {
            None
        }
    }
}

} // verus!
