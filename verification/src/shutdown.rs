//! The flag that tells a served mount to stop.
//!
//! The flag is the one thing that the interrupt handler and the wait loop
//! have in common. It is raised when it is made, the handler lowers it, and
//! nothing raises it again.

use vstd::prelude::*;

verus! {

/// What can happen to a shutdown flag.
#[derive(Clone, Copy, Debug, PartialEq, Eq, Structural)]
pub enum FlagEvent {
    /// The interrupt handler ran.
    Interrupt,
    /// The wait loop read the flag.
    Poll,
}

/// The value of a flag that held `running`, after `event`.
pub open spec fn flag_after(running: bool, event: FlagEvent) -> bool {
    match event {
        FlagEvent::Interrupt => false,
        FlagEvent::Poll => running,
    }
}

/// The value of a fresh flag after `events`, in order.
pub open spec fn flag_after_all(events: Seq<FlagEvent>) -> bool
    decreases events.len(),
{
    if events.len() == 0 {
        true
    } else {
        flag_after(flag_after_all(events.drop_last()), events.last())
    }
}

/// A flag that reads `true` for as long as the mount is to be served.
#[derive(Debug)]
pub struct ShutdownFlag {
    running: bool,
}

impl View for ShutdownFlag {
    type V = bool;

    closed spec fn view(&self) -> bool {
        self.running
    }
}

impl ShutdownFlag {
    /// A fresh flag. It is raised.
    pub fn new() -> (flag: ShutdownFlag)
        ensures
            flag@ == flag_after_all(Seq::empty()),
            flag@,
    {
        ShutdownFlag { running: true }
    }

    /// Lowers the flag. This is all that the interrupt handler does; on a flag
    /// that is down already it changes nothing.
    pub fn request_stop(&mut self)
        ensures
            final(self)@ == flag_after(old(self)@, FlagEvent::Interrupt),
            !final(self)@,
    {
        self.running = false;
    }

    /// Reads the flag, which leaves it as it is.
    pub fn is_running(&self) -> (running: bool)
        ensures
            running == self@,
            running == flag_after(self@, FlagEvent::Poll),
    {
        self.running
    }
}

/// A flag is down only if the interrupt handler ran.
pub proof fn lemma_only_interrupt_lowers(events: Seq<FlagEvent>)
    ensures
        flag_after_all(events) <==> !events.contains(FlagEvent::Interrupt),
    decreases events.len(),
{
    if events.len() > 0 {
        let earlier = events.drop_last();
        lemma_only_interrupt_lowers(earlier);
        if earlier.contains(FlagEvent::Interrupt) {
            let k = choose|k: int| 0 <= k < earlier.len() && earlier[k] == FlagEvent::Interrupt;
            assert(events[k] == FlagEvent::Interrupt);
        }
        if events.contains(FlagEvent::Interrupt) && events.last() != FlagEvent::Interrupt {
            let k = choose|k: int| 0 <= k < events.len() && events[k] == FlagEvent::Interrupt;
            assert(earlier[k] == FlagEvent::Interrupt);
        }
    }
}

/// A flag that is down stays down: whatever happens after it was lowered,
/// every later poll reads `false`.
pub proof fn lemma_lowered_flag_stays_down(events: Seq<FlagEvent>, earlier: int, later: int)
    requires
        0 <= earlier <= later <= events.len(),
        !flag_after_all(events.take(earlier)),
    ensures
        !flag_after_all(events.take(later)),
    decreases later - earlier,
{
    if earlier < later {
        lemma_lowered_flag_stays_down(events, earlier, later - 1);
        assert(events.take(later).drop_last() == events.take(later - 1));
    }
}

} // verus!
