//! Wall times and hybrid logical timestamps, with their total order and the
//! two transitions of the clock as mathematical functions.

use std::cmp::Ordering;
use vstd::prelude::*;
use vstd::std_specs::cmp::PartialOrdSpecImpl;

verus! {

/// A wall time: whole seconds and the nanoseconds past them.
///
/// Nothing is assumed of either field; two wall times compare by seconds
/// first and nanoseconds second, whatever the fields hold.
#[derive(Debug, Clone, Copy, PartialEq, Eq, Structural, Ord, Hash)]
pub struct Timespec {
    pub sec: i64,
    pub nsec: i32,
}

impl Timespec {
    /// Strictly earlier: seconds decide, nanoseconds break ties.
    pub open spec fn precedes(self, other: Timespec) -> bool {
        self.sec < other.sec || (self.sec == other.sec && self.nsec < other.nsec)
    }

    /// Where `self` stands relative to `other`.
    pub open spec fn order(self, other: Timespec) -> Ordering {
        if self.precedes(other) {
            Ordering::Less
        } else if other.precedes(self) {
            Ordering::Greater
        } else {
            Ordering::Equal
        }
    }
}

impl PartialOrd for Timespec {
    fn partial_cmp(&self, other: &Timespec) -> (r: Option<Ordering>) {
        if self.sec < other.sec || (self.sec == other.sec && self.nsec < other.nsec) {
            Some(Ordering::Less)
        } else if other.sec < self.sec || (other.sec == self.sec && other.nsec < self.nsec) {
            Some(Ordering::Greater)
        } else {
            Some(Ordering::Equal)
        }
    }
}

impl PartialOrdSpecImpl for Timespec {
    open spec fn obeys_partial_cmp_spec() -> bool {
        true
    }

    open spec fn partial_cmp_spec(&self, other: &Timespec) -> Option<Ordering> {
        Some(self.order(*other))
    }
}

/// The logical counter after one more tick: one higher, or zero after the
/// largest value.
pub open spec fn next_tick(logical: u16) -> u16 {
    if logical == u16::MAX {
        0u16
    } else {
        (logical + 1) as u16
    }
}

/// A hybrid logical timestamp: a wall time and a logical counter that orders
/// timestamps of equal wall time.
#[derive(Debug, Clone, Copy, PartialEq, Eq, Structural, Ord)]
pub struct HLTimespec {
    pub wall: Timespec,
    pub logical: u16,
}

impl HLTimespec {
    /// Strictly earlier: the wall time decides, the logical counter breaks
    /// ties.
    pub open spec fn precedes(self, other: HLTimespec) -> bool {
        self.wall.precedes(other.wall) || (self.wall == other.wall && self.logical
            < other.logical)
    }

    /// Where `self` stands relative to `other`.
    pub open spec fn order(self, other: HLTimespec) -> Ordering {
        if self.precedes(other) {
            Ordering::Less
        } else if other.precedes(self) {
            Ordering::Greater
        } else {
            Ordering::Equal
        }
    }

    /// The timestamp a clock standing at `self` issues for a local event when
    /// the physical clock reads `physical`.
    pub open spec fn ticked(self, physical: Timespec) -> HLTimespec {
        if self.wall.precedes(physical) {
            HLTimespec { wall: physical, logical: 0 }
        } else {
            HLTimespec { wall: self.wall, logical: next_tick(self.logical) }
        }
    }

    /// Whether `ticked` wraps the logical counter for this reading.
    pub open spec fn tick_wraps(self, physical: Timespec) -> bool {
        !self.wall.precedes(physical) && self.logical == u16::MAX
    }

    /// The timestamp a clock standing at `self` issues on receiving `event`
    /// when the physical clock reads `physical`.
    pub open spec fn merged(self, physical: Timespec, event: HLTimespec) -> HLTimespec {
        if event.wall.precedes(physical) && self.wall.precedes(physical) {
            HLTimespec { wall: physical, logical: 0 }
        } else if self.wall.precedes(event.wall) {
            HLTimespec { wall: event.wall, logical: next_tick(event.logical) }
        } else if event.wall.precedes(self.wall) {
            HLTimespec { wall: self.wall, logical: next_tick(self.logical) }
        } else {
            HLTimespec {
                wall: self.wall,
                logical: next_tick(
                    if event.logical > self.logical {
                        event.logical
                    } else {
                        self.logical
                    },
                ),
            }
        }
    }

    /// Whether `merged` wraps the logical counter for this reading and event.
    pub open spec fn merge_wraps(self, physical: Timespec, event: HLTimespec) -> bool {
        !(event.wall.precedes(physical) && self.wall.precedes(physical)) && (if self.wall.precedes(
            event.wall,
        ) {
            event.logical == u16::MAX
        } else if event.wall.precedes(self.wall) {
            self.logical == u16::MAX
        } else {
            self.logical == u16::MAX || event.logical == u16::MAX
        })
    }

    /// The timestamp of `s` seconds, `ns` nanoseconds and `l` logical ticks.
    /// No field is checked: what is given is what is compared.
    pub fn new(s: i64, ns: i32, l: u16) -> (r: HLTimespec)
        ensures
            r == (HLTimespec { wall: Timespec { sec: s, nsec: ns }, logical: l }),
    {
        HLTimespec { wall: Timespec { sec: s, nsec: ns }, logical: l }
    }
}

impl PartialOrd for HLTimespec {
    fn partial_cmp(&self, other: &HLTimespec) -> (r: Option<Ordering>) {
        if self.wall < other.wall || (self.wall == other.wall && self.logical < other.logical) {
            Some(Ordering::Less)
        } else if other.wall < self.wall || (self.wall == other.wall && other.logical
            < self.logical) {
            Some(Ordering::Greater)
        } else {
            Some(Ordering::Equal)
        }
    }
}

impl PartialOrdSpecImpl for HLTimespec {
    open spec fn obeys_partial_cmp_spec() -> bool {
        true
    }

    open spec fn partial_cmp_spec(&self, other: &HLTimespec) -> Option<Ordering> {
        Some(self.order(*other))
    }
}

} // verus!
