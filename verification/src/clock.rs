//! The clock: the last timestamp issued and the source of physical time.

use crate::source::system_time;
use crate::timespec::{HLTimespec, Timespec};
use std::sync::Mutex;
use vstd::prelude::*;

verus! {

/// A hybrid logical clock.
///
/// It holds the last timestamp it issued and a source of physical time, which
/// it reads once for every timestamp.
pub struct State<F> {
    s: HLTimespec,
    now: F,
}

impl<F: FnMut() -> Timespec> State<F> {
    /// The last timestamp issued; the zero timestamp before the first.
    pub closed spec fn current(&self) -> HLTimespec {
        self.s
    }

    /// Whether `physical` is among the readings that the source of physical
    /// time may answer when it is read.
    pub closed spec fn reads(&self, physical: Timespec) -> bool {
        call_ensures(self.now, (), physical)
    }

    /// Whether the source of physical time can be read: it asks nothing of
    /// its caller. Every clock that this module makes is so, and stays so.
    pub closed spec fn wf(&self) -> bool {
        call_requires(self.now, ())
    }

    /// A clock at the zero timestamp that reads physical time from `now`,
    /// a source that asks nothing of its caller. The source decides its
    /// readings freely: they may stall or run backwards.
    pub fn new_with(now: F) -> (r: State<F>)
        requires
            call_requires(now, ()),
        ensures
            r.wf(),
            r.current() == (HLTimespec { wall: Timespec { sec: 0, nsec: 0 }, logical: 0 }),
            forall|physical: Timespec| r.reads(physical) == call_ensures(now, (), physical),
    {
        State { s: HLTimespec { wall: Timespec { sec: 0, nsec: 0 }, logical: 0 }, now: now }
    }

    /// Issues the timestamp of a local event for the reading `physical`.
    ///
    /// The timestamp exceeds the one issued before it unless the logical
    /// counter wraps.
    pub fn get_time_at(&mut self, physical: Timespec) -> (r: HLTimespec)
        ensures
            r == old(self).current().ticked(physical),
            final(self).current() == r,
            old(self).current().precedes(r) <==> !old(self).current().tick_wraps(physical),
            forall|p: Timespec| final(self).reads(p) == old(self).reads(p),
            final(self).wf() == old(self).wf(),
    {
        if self.s.wall < physical {
            self.s.wall = physical;
            self.s.logical = 0;
        } else {
            self.s.logical = self.s.logical.wrapping_add(1);
        }
        self.s
    }

    /// Issues the timestamp of a local event, reading the source once.
    ///
    /// Whatever the source answers, the timestamp exceeds the one issued
    /// before it as long as the logical counter has room for one more tick.
    pub fn get_time(&mut self) -> (r: HLTimespec)
        requires
            old(self).wf(),
        ensures
            final(self).wf(),
            exists|physical: Timespec| #[trigger]
                old(self).reads(physical) && r == old(self).current().ticked(physical),
            final(self).current() == r,
            forall|p: Timespec| final(self).reads(p) == old(self).reads(p),
            old(self).current().logical < u16::MAX ==> old(self).current().precedes(r),
    {
        let physical = (self.now)();
        assert(old(self).reads(physical));
        self.get_time_at(physical)
    }

    /// Issues the timestamp of the receipt of `event` for the reading
    /// `physical`.
    ///
    /// The timestamp exceeds both the one issued before it and `event` unless
    /// the logical counter wraps.
    pub fn update_at(&mut self, physical: Timespec, event: HLTimespec) -> (r: HLTimespec)
        ensures
            r == old(self).current().merged(physical, event),
            final(self).current() == r,
            (old(self).current().precedes(r) && event.precedes(r)) <==> !old(
                self,
            ).current().merge_wraps(physical, event),
            forall|p: Timespec| final(self).reads(p) == old(self).reads(p),
            final(self).wf() == old(self).wf(),
    {
        if physical > event.wall && physical > self.s.wall {
            self.s.wall = physical;
            self.s.logical = 0;
        } else if event.wall > self.s.wall {
            self.s.wall = event.wall;
            self.s.logical = event.logical.wrapping_add(1);
        } else if self.s.wall > event.wall {
            self.s.logical = self.s.logical.wrapping_add(1);
        } else {
            if event.logical > self.s.logical {
                self.s.logical = event.logical;
            }
            self.s.logical = self.s.logical.wrapping_add(1);
        }
        self.s
    }

    /// Issues the timestamp of the receipt of `event`, reading the source
    /// once.
    ///
    /// Whatever the source answers, the timestamp exceeds both the one issued
    /// before it and `event` as long as neither logical counter is at its
    /// largest value.
    pub fn update(&mut self, event: HLTimespec) -> (r: HLTimespec)
        requires
            old(self).wf(),
        ensures
            final(self).wf(),
            exists|physical: Timespec| #[trigger]
                old(self).reads(physical) && r == old(self).current().merged(physical, event),
            final(self).current() == r,
            forall|p: Timespec| final(self).reads(p) == old(self).reads(p),
            old(self).current().logical < u16::MAX && event.logical < u16::MAX ==> old(
                self,
            ).current().precedes(r) && event.precedes(r),
    {
        let physical = (self.now)();
        assert(old(self).reads(physical));
        self.update_at(physical, event)
    }
}

impl State<()> {
    /// A clock at the zero timestamp that reads the system's physical clock.
    ///
    /// Every reading of that clock has its nanoseconds within one second.
    pub fn new() -> (r: State<impl FnMut() -> Timespec>)
        ensures
            r.wf(),
            r.current() == (HLTimespec { wall: Timespec { sec: 0, nsec: 0 }, logical: 0 }),
            forall|physical: Timespec| #[trigger]
                r.reads(physical) ==> 0 <= physical.nsec < 1_000_000_000,
    {
        State::new_with(system_time)
    }

    /// The clock of `new` behind a mutex, for callers that share one clock
    /// among threads: each takes the lock for one call and releases it.
    pub fn new_sendable() -> Mutex<State<impl FnMut() -> Timespec>> {
        Mutex::new(State::new())
    }
}

} // verus!
