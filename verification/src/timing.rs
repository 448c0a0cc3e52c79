//! Lengths of time as plain numbers, and the player's sums with them.

use vstd::prelude::*;

verus! {

/// A length of time in whole seconds and the nanoseconds beyond them.
#[derive(Clone, Copy, Debug, PartialEq, Eq, Structural)]
pub struct Length {
    pub secs: u64,
    pub nanos: u32,
}

/// A length of `nanos` nanoseconds, where the seconds of it fit a machine
/// integer.
pub open spec fn length_of(nanos: int) -> Length {
    Length { secs: (nanos / 1_000_000_000) as u64, nanos: (nanos % 1_000_000_000) as u32 }
}

impl Length {
    /// Less than a second of nanoseconds beyond the seconds.
    pub open spec fn wf(self) -> bool {
        self.nanos < 1_000_000_000
    }

    /// No time at all.
    pub fn zero() -> (r: Length)
        ensures
            r == (Length { secs: 0, nanos: 0 }),
    {
        Length { secs: 0, nanos: 0 }
    }

    /// The length in nanoseconds.
    pub fn as_nanos(self) -> (r: u128)
        ensures
            r == nanos_of(self),
    {
        self.secs as u128 * 1_000_000_000 + self.nanos as u128
    }

    /// The length that is `nanos` nanoseconds long.
    pub fn from_nanos(nanos: u128) -> (r: Length)
        requires
            nanos / 1_000_000_000 <= u64::MAX,
        ensures
            r == length_of(nanos as int),
            r.wf(),
            nanos_of(r) == nanos,
    {
        Length { secs: (nanos / 1_000_000_000) as u64, nanos: (nanos % 1_000_000_000) as u32 }
    }
}

/// How far the song has to go, and how long it is.
pub struct Timer {
    pub fcalc: Length,
    pub maxlen: Length,
}

/// A length in nanoseconds.
pub open spec fn nanos_of(l: Length) -> int {
    l.secs * 1_000_000_000 + l.nanos
}

/// The whole seconds by which `maxlen` is longer than `fcalc`; none where it
/// is not longer, and no more than a machine integer holds, which lengths
/// with less than a second of nanoseconds never exceed.
pub open spec fn spec_remaining_secs(timer: Timer) -> int {
    if nanos_of(timer.maxlen) < nanos_of(timer.fcalc) {
        0
    } else if (nanos_of(timer.maxlen) - nanos_of(timer.fcalc)) / 1_000_000_000 > u64::MAX {
        u64::MAX as int
    } else {
        (nanos_of(timer.maxlen) - nanos_of(timer.fcalc)) / 1_000_000_000
    }
}

impl Timer {
    /// A timer of a song of no length.
    pub fn new() -> (r: Self)
        ensures
            r.fcalc == (Length { secs: 0, nanos: 0 }),
            r.maxlen == (Length { secs: 0, nanos: 0 }),
    {
        Self { fcalc: Length { secs: 0, nanos: 0 }, maxlen: Length { secs: 0, nanos: 0 } }
    }

    /// The whole seconds by which the song's length exceeds what is left to
    /// go.
    pub fn remaining_secs(&self) -> (r: u64)
        ensures
            r == spec_remaining_secs(*self),
    {
        let all: u128 = self.maxlen.secs as u128 * 1_000_000_000 + self.maxlen.nanos as u128;
        let left: u128 = self.fcalc.secs as u128 * 1_000_000_000 + self.fcalc.nanos as u128;
        if all < left {
            0
        } else {
            let whole: u128 = (all - left) / 1_000_000_000;
            if whole > 0xffff_ffff_ffff_ffff {
                0xffff_ffff_ffff_ffff
            } else {
                whole as u64
            }
        }
    }
}

/// What is left of a song `cached` long at position `pos`: nothing once the
/// position has reached the end.
pub fn duration_autobuild(cached: Length, pos: Length) -> (r: Length)
    requires
        cached.wf(),
    ensures
        (r == if nanos_of(pos) >= nanos_of(cached) {
            Length { secs: 0, nanos: 0 }
        } else {
            length_of(nanos_of(cached) - nanos_of(pos))
        }),
        r.wf(),
{
    let end: u128 = cached.as_nanos();
    let at: u128 = pos.as_nanos();
    if at >= end {
        return Length::zero();
    }
    Length::from_nanos(end - at)
}

/// Five seconds, in nanoseconds.
pub const SEEK_STEP: u128 = 5_000_000_000;

/// Where a seek forward from `pos` goes in a song `cached` long: five seconds
/// on, or, where that is at or past the end of a song of known length, to one
/// second before the end.
pub fn seek_forward_target(pos: Length, cached: Length) -> (r: Length)
    requires
        pos.wf(),
        cached.wf(),
        pos.secs <= u64::MAX - 5,
    ensures
        r.wf(),
        (nanos_of(r) == if nanos_of(pos) + SEEK_STEP >= nanos_of(cached) && nanos_of(cached) != 0 {
            if nanos_of(cached) < 1_000_000_000 {
                0
            } else {
                nanos_of(cached) - 1_000_000_000
            }
        } else {
            nanos_of(pos) + SEEK_STEP
        }),
{
    let end: u128 = cached.as_nanos();
    let at: u128 = pos.as_nanos();
    if at + SEEK_STEP >= end && end != 0 {
        if end < 1_000_000_000 {
            Length::zero()
        } else {
            Length::from_nanos(end - 1_000_000_000)
        }
    } else {
        Length::from_nanos(at + SEEK_STEP)
    }
}

/// Where a seek backward from `pos` goes: five seconds back, or to the start
/// where the song has not played for longer than that.
pub fn seek_backward_target(pos: Length) -> (r: Option<Length>)
    requires
        pos.wf(),
    ensures
        (match r {
            Some(to) => nanos_of(pos) > SEEK_STEP && nanos_of(to) == nanos_of(pos) - SEEK_STEP
                && to.wf(),
            None => nanos_of(pos) <= SEEK_STEP,
        }),
{
    let at: u128 = pos.as_nanos();
    if at <= SEEK_STEP {
        None
    } else {
        Some(Length::from_nanos(at - SEEK_STEP))
    }
}

} // verus!
