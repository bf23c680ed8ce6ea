//! A model of the hardware that the routine drives: the LED line, the
//! timer's load register and its elapsed flag. The flag may latch again right
//! after it has been acknowledged, a given number of times. On this model one
//! whole firing is served here, from the interrupt to the return from it.

use crate::isr::{expects, Action, Event, Phase, Reply, Routine, Service};
use crate::pattern::advance;
use crate::timer::{lemma_ticks_monotonic, ticks_for};
use vstd::prelude::*;

verus! {

/// The state of the hardware.
#[derive(Clone, Copy, Debug, PartialEq, Eq, Structural)]
pub struct Board {
    /// The level of the LED line.
    pub led_on: bool,
    /// How often the LED line has been toggled.
    pub toggles: u64,
    /// The value last loaded into the timer, in ticks.
    pub load_ticks: u32,
    /// The timer's elapsed flag.
    pub elapsed: bool,
    /// How many more times the flag latches again at once when acknowledged.
    pub relatches: u32,
}

/// The board after one acknowledgement of the elapsed flag: a set flag with
/// latches outstanding uses one up and stays set; otherwise the flag is clear.
pub open spec fn cleared(b: Board) -> Board {
    if b.elapsed && b.relatches > 0 {
        Board { relatches: (b.relatches - 1) as u32, ..b }
    } else {
        Board { elapsed: false, ..b }
    }
}

/// The board after `n` acknowledgements.
pub open spec fn cleared_times(b: Board, n: nat) -> Board
    decreases n,
{
    if n == 0 {
        b
    } else {
        cleared(cleared_times(b, (n - 1) as nat))
    }
}

/// The number of acknowledgements until the flag reads clear.
pub open spec fn pending(b: Board) -> nat {
    if b.elapsed {
        (b.relatches + 1) as nat
    } else {
        0
    }
}

/// The board once the flag has been acknowledged until it reads clear.
pub open spec fn settled(b: Board) -> Board {
    Board {
        elapsed: false,
        relatches: if b.elapsed {
            0
        } else {
            b.relatches
        },
        ..b
    }
}

/// The board after an action.
pub open spec fn performed(b: Board, action: Action) -> Board {
    match action {
        Action::ToggleLed => Board { led_on: !b.led_on, toggles: (b.toggles + 1) as u64, ..b },
        Action::Arm(ticks) => Board { load_ticks: ticks, ..b },
        Action::ReadElapsed => b,
        Action::ClearElapsed => cleared(b),
    }
}

/// What the board reports of an action.
pub open spec fn report(b: Board, action: Action) -> Event {
    match action {
        Action::ReadElapsed => Event::Elapsed(b.elapsed),
        _ => Event::Done,
    }
}

/// The board after one firing has been served: the LED toggled once, the
/// timer loaded with the new delay's ticks, the flag acknowledged until clear.
pub open spec fn served(b: Board, r: Routine) -> Board {
    settled(
        Board {
            led_on: !b.led_on,
            toggles: (b.toggles + 1) as u64,
            load_ticks: ticks_for(r.freq_hz, advance(r.pattern, r.beat).delay_ms) as u32,
            ..b
        },
    )
}

/// Acknowledging a clear flag changes nothing, and where no latch is
/// outstanding a second acknowledgement changes nothing either.
pub proof fn lemma_clear_idempotent(b: Board)
    ensures
        !b.elapsed ==> cleared(b) == b,
        b.relatches == 0 ==> cleared(cleared(b)) == cleared(b),
{
}

/// Acknowledging as often as is pending leaves the flag clear, whatever the
/// number of latches outstanding, and from then on it stays clear.
pub proof fn lemma_clear_settles(b: Board, extra: nat)
    ensures
        cleared_times(b, pending(b)) == settled(b),
        cleared_times(b, pending(b) + extra) == settled(b),
        !settled(b).elapsed,
    decreases pending(b) + extra,
{
    if extra > 0 {
        lemma_clear_settles(b, (extra - 1) as nat);
        assert(cleared_times(b, pending(b) + extra) == cleared(
            cleared_times(b, (pending(b) + extra - 1) as nat),
        ));
    } else {
        lemma_cleared_down(b);
    }
}

/// Acknowledging as often as is pending leaves the flag clear.
proof fn lemma_cleared_down(b: Board)
    ensures
        cleared_times(b, pending(b)) == settled(b),
    decreases pending(b),
{
    if pending(b) > 0 {
        lemma_cleared_shift(b, (pending(b) - 1) as nat);
        lemma_cleared_down(cleared(b));
    }
}

/// One acknowledgement first and `n` after it are `n + 1` in all.
proof fn lemma_cleared_shift(b: Board, n: nat)
    ensures
        cleared_times(b, n + 1) == cleared_times(cleared(b), n),
    decreases n,
{
    if n > 0 {
        lemma_cleared_shift(b, (n - 1) as nat);
        assert(cleared_times(b, n + 1) == cleared(cleared_times(b, n)));
    } else {
        assert(cleared_times(b, 1) == cleared(cleared_times(b, 0)));
    }
}

impl Board {
    /// A board at power-on: the LED off, nothing loaded, the flag clear.
    pub fn new() -> (board: Board)
        ensures
            board == (Board {
                led_on: false,
                toggles: 0,
                load_ticks: 0,
                elapsed: false,
                relatches: 0,
            }),
    {
        Board { led_on: false, toggles: 0, load_ticks: 0, elapsed: false, relatches: 0 }
    }

    /// The timer reaches zero: the flag is set, and will latch again
    /// `relatches` times when acknowledged.
    pub fn elapse(&mut self, relatches: u32)
        ensures
            *final(self) == (Board { elapsed: true, relatches, ..*old(self) }),
    {
        self.elapsed = true;
        self.relatches = relatches;
    }

    /// Performs one action and reports on it.
    pub fn perform(&mut self, action: Action) -> (event: Event)
        requires
            action == Action::ToggleLed ==> old(self).toggles < u64::MAX,
        ensures
            *final(self) == performed(*old(self), action),
            event == report(*old(self), action),
    {
        match action {
            Action::ToggleLed => {
                self.led_on = !self.led_on;
                self.toggles = self.toggles + 1;
                Event::Done
            },
            Action::Arm(ticks) => {
                self.load_ticks = ticks;
                Event::Done
            },
            Action::ReadElapsed => Event::Elapsed(self.elapsed),
            Action::ClearElapsed => {
                if self.elapsed && self.relatches > 0 {
                    self.relatches = self.relatches - 1;
                } else {
                    self.elapsed = false;
                }
                Event::Done
            },
        }
    }
}

/// How far the service of a firing has come on the board, phase by phase.
spec fn on_course(r0: Routine, b0: Board, r: Routine, b: Board, event: Event) -> bool {
    let toggled = performed(b0, Action::ToggleLed);
    let beat = advance(r0.pattern, r0.beat);
    let armed = Board { load_ticks: ticks_for(r0.freq_hz, beat.delay_ms) as u32, ..toggled };
    let draining = Board { elapsed: b.elapsed, relatches: b.relatches, ..armed };
    &&& expects(r.phase, event)
    &&& match r.phase {
        Phase::Idle => r == r0 && b == b0,
        Phase::Toggling => r == (Routine { phase: Phase::Toggling, ..r0 }) && b == toggled,
        Phase::Arming => r == (Routine { phase: Phase::Arming, beat, ..r0 }) && b == armed,
        Phase::Reading => {
            &&& r == (Routine { phase: Phase::Reading, beat, ..r0 })
            &&& b == draining
            &&& settled(b) == settled(armed)
            &&& event == Event::Elapsed(b.elapsed)
        },
        Phase::Clearing => {
            &&& r == (Routine { phase: Phase::Clearing, beat, ..r0 })
            &&& b == draining
            &&& settled(b) == settled(armed)
        },
    }
}

/// What is left to do in a firing: strictly less after every action.
spec fn remaining(r: Routine, b: Board) -> int {
    2 * pending(b) + match r.phase {
        Phase::Idle => 5int,
        Phase::Toggling => 4,
        Phase::Arming => 3,
        Phase::Clearing => 2,
        Phase::Reading => 1,
    }
}

/// Serves one firing of the timer on the board, from the interrupt to the
/// return from it: asks the routine what to do, does it, reports back, until
/// the routine has finished. The LED is toggled exactly once, the blink state
/// advances exactly one step, the timer is loaded with the new delay's ticks,
/// and the flag is acknowledged until it reads clear, however often it latches
/// again. A routine that is in the middle of a firing refuses, and nothing
/// changes.
pub fn fire(service: &mut Service, board: &mut Board) -> (accepted: bool)
    requires
        old(board).toggles < u64::MAX,
    ensures
        accepted == (old(service)@.phase == Phase::Idle),
        accepted ==> final(service)@ == (Routine {
            beat: advance(old(service)@.pattern, old(service)@.beat),
            ..old(service)@
        }),
        accepted ==> *final(board) == served(*old(board), old(service)@),
        accepted ==> final(board).toggles == old(board).toggles + 1,
        accepted ==> final(board).load_ticks == ticks_for(
            final(service)@.freq_hz,
            final(service)@.beat.delay_ms,
        ),
        !accepted ==> final(service)@ == old(service)@ && *final(board) == *old(board),
{
    let ghost r0 = service@;
    let ghost b0 = *board;
    let mut event = Event::Fired;
    loop
        invariant
            r0 == old(service)@,
            b0 == *old(board),
            b0.toggles < u64::MAX,
            r0.phase == Phase::Idle ==> on_course(r0, b0, service@, *board, event),
            r0.phase != Phase::Idle ==> service@ == r0 && *board == b0 && event == Event::Fired,
        decreases remaining(service@, *board),
    {
        match service.next(event) {
            Reply::Perform(action) => {
                event = board.perform(action);
            },
            Reply::Finished => {
                proof {
                    let r = service@;
                    lemma_ticks_monotonic(
                        r.freq_hz,
                        r.beat.delay_ms,
                        r.pattern.max_delay_ms as int,
                    );
                }
                return true;
            },
            Reply::Rejected => {
                return false;
            },
        }
    }
}

} // verus!
