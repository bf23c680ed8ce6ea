//! The interrupt routine as a state machine that never touches the hardware:
//! it is told what happened and answers with what to do next. Whoever owns
//! the timer and the LED performs each action and reports back.

use crate::pattern::{
    advance, in_bounds, initial, standard_pattern, Beat, BlinkState, Pattern,
};
use crate::timer::{
    checked_period_ticks, lemma_ticks_monotonic, perclk_frequency, period_ticks, ticks_for,
};
use vstd::prelude::*;

verus! {

/// What the routine asks of the hardware.
#[derive(Clone, Copy, Debug, PartialEq, Eq, Structural)]
pub enum Action {
    /// Invert the LED line.
    ToggleLed,
    /// Load the timer with this many ticks; the timer keeps counting.
    Arm(u32),
    /// Read the timer's elapsed flag and report it.
    ReadElapsed,
    /// Acknowledge the elapsed flag.
    ClearElapsed,
}

/// What the hardware reports to the routine.
#[derive(Clone, Copy, Debug, PartialEq, Eq, Structural)]
pub enum Event {
    /// The timer's interrupt fired.
    Fired,
    /// The action asked for has been performed.
    Done,
    /// The elapsed flag was read, with this value.
    Elapsed(bool),
}

/// The routine's answer to an event.
#[derive(Clone, Copy, Debug, PartialEq, Eq, Structural)]
pub enum Reply {
    /// Perform this action and report back.
    Perform(Action),
    /// This firing has been served: return from the interrupt.
    Finished,
    /// The event does not belong here; nothing has changed.
    Rejected,
}

/// Where the routine stands within one firing.
#[derive(Clone, Copy, Debug, PartialEq, Eq, Structural)]
pub enum Phase {
    /// Between firings.
    Idle,
    /// The LED is being toggled.
    Toggling,
    /// The timer is being loaded with the new period.
    Arming,
    /// The elapsed flag is being read.
    Reading,
    /// The elapsed flag is being acknowledged.
    Clearing,
}

/// The routine as a mathematical value.
pub struct Routine {
    pub pattern: Pattern,
    pub freq_hz: int,
    pub beat: Beat,
    pub phase: Phase,
}

/// The interrupt routine with all that it owns: the pattern, the timer's
/// clock frequency, the blink state, and its place within the firing.
pub struct Service {
    pattern: Pattern,
    freq_hz: u32,
    state: BlinkState,
    phase: Phase,
}

/// The bounds are in order, the delay lies between them, and the load value
/// of the longest delay fits the timer's register.
pub open spec fn valid(r: Routine) -> bool {
    &&& r.pattern.wf()
    &&& in_bounds(r.pattern, r.beat)
    &&& 0 <= r.freq_hz
    &&& ticks_for(r.freq_hz, r.pattern.max_delay_ms as int) <= u32::MAX
}

/// The one kind of event that each phase waits for.
pub open spec fn expects(phase: Phase, event: Event) -> bool {
    match phase {
        Phase::Idle => event is Fired,
        Phase::Toggling | Phase::Arming | Phase::Clearing => event is Done,
        Phase::Reading => event is Elapsed,
    }
}

/// The routine after an event. Within one firing: toggle the LED; advance the
/// beat and load the timer with the new delay; then read the elapsed flag,
/// acknowledging it for as long as it reads set.
pub open spec fn react(r: Routine, event: Event) -> Routine {
    if !expects(r.phase, event) {
        r
    } else {
        match r.phase {
            Phase::Idle => Routine { phase: Phase::Toggling, ..r },
            Phase::Toggling => Routine {
                phase: Phase::Arming,
                beat: advance(r.pattern, r.beat),
                ..r
            },
            Phase::Arming | Phase::Clearing => Routine { phase: Phase::Reading, ..r },
            Phase::Reading => Routine {
                phase: if event == Event::Elapsed(true) {
                    Phase::Clearing
                } else {
                    Phase::Idle
                },
                ..r
            },
        }
    }
}

/// The answer that goes with `react`.
pub open spec fn reply_to(r: Routine, event: Event) -> Reply {
    if !expects(r.phase, event) {
        Reply::Rejected
    } else {
        match r.phase {
            Phase::Idle => Reply::Perform(Action::ToggleLed),
            Phase::Toggling => Reply::Perform(
                Action::Arm(ticks_for(r.freq_hz, advance(r.pattern, r.beat).delay_ms) as u32),
            ),
            Phase::Arming | Phase::Clearing => Reply::Perform(Action::ReadElapsed),
            Phase::Reading => if event == Event::Elapsed(true) {
                Reply::Perform(Action::ClearElapsed)
            } else {
                Reply::Finished
            },
        }
    }
}

impl View for Service {
    type V = Routine;

    closed spec fn view(&self) -> Routine {
        Routine {
            pattern: self.pattern,
            freq_hz: self.freq_hz as int,
            beat: self.state@,
            phase: self.phase,
        }
    }
}

impl Service {
    #[verifier::type_invariant]
    spec fn inv(&self) -> bool {
        valid(self@)
    }

    /// A routine at power-on, between firings. `None` where the bounds are out
    /// of order or the longest delay's load value exceeds the timer's register.
    pub fn new(pattern: Pattern, freq_hz: u32) -> (service: Option<Service>)
        ensures
            ({
                let r = Routine {
                    pattern,
                    freq_hz: freq_hz as int,
                    beat: initial(pattern),
                    phase: Phase::Idle,
                };
                match service {
                    Some(s) => valid(r) && s@ == r,
                    None => !valid(r),
                }
            }),
    {
        if pattern.min_delay_ms < pattern.max_delay_ms && checked_period_ticks(
            freq_hz,
            pattern.max_delay_ms,
        ).is_some() {
            Some(Service { pattern, freq_hz, state: BlinkState::new(&pattern), phase: Phase::Idle })
        } else {
            None
        }
    }

    /// The routine for the Teensy 4 with the standard pattern, at power-on.
    pub fn standard() -> (service: Service)
        ensures
            service@ == (Routine {
                pattern: standard_pattern(),
                freq_hz: 1_000_000,
                beat: initial(standard_pattern()),
                phase: Phase::Idle,
            }),
            valid(service@),
    {
        let pattern = Pattern::standard();
        let freq_hz = perclk_frequency();
        Service { pattern, freq_hz, state: BlinkState::new(&pattern), phase: Phase::Idle }
    }

    /// Takes an event and answers with what to do next.
    pub fn next(&mut self, event: Event) -> (reply: Reply)
        ensures
            valid(old(self)@),
            valid(final(self)@),
            final(self)@ == react(old(self)@, event),
            reply == reply_to(old(self)@, event),
            reply matches Reply::Perform(Action::Arm(ticks)) ==> ticks == ticks_for(
                final(self)@.freq_hz,
                final(self)@.beat.delay_ms,
            ),
    {
        proof {
            use_type_invariant(&*self);
        }
        match (self.phase, event) {
            (Phase::Idle, Event::Fired) => {
                self.phase = Phase::Toggling;
                Reply::Perform(Action::ToggleLed)
            },
            (Phase::Toggling, Event::Done) => {
                let mut state = self.state;
                state.step(&self.pattern);
                proof {
                    lemma_ticks_monotonic(
                        self.freq_hz as int,
                        state.current_delay_ms as int,
                        self.pattern.max_delay_ms as int,
                    );
                }
                let ticks = period_ticks(self.freq_hz, state.current_delay_ms);
                self.state = state;
                self.phase = Phase::Arming;
                Reply::Perform(Action::Arm(ticks))
            },
            (Phase::Arming, Event::Done) | (Phase::Clearing, Event::Done) => {
                self.phase = Phase::Reading;
                Reply::Perform(Action::ReadElapsed)
            },
            (Phase::Reading, Event::Elapsed(true)) => {
                self.phase = Phase::Clearing;
                Reply::Perform(Action::ClearElapsed)
            },
            (Phase::Reading, Event::Elapsed(false)) => {
                self.phase = Phase::Idle;
                Reply::Finished
            },
            _ => Reply::Rejected,
        }
    }

    /// The pattern that the routine follows.
    pub fn pattern(&self) -> (pattern: Pattern)
        ensures
            pattern == self@.pattern,
    {
        self.pattern
    }

    /// The frequency of the timer's clock, in hertz.
    pub fn freq_hz(&self) -> (freq_hz: u32)
        ensures
            freq_hz == self@.freq_hz,
    {
        self.freq_hz
    }

    /// The blink state now in force.
    pub fn state(&self) -> (state: BlinkState)
        ensures
            state@ == self@.beat,
    {
        self.state
    }

    /// Where the routine stands within the firing.
    pub fn phase(&self) -> (phase: Phase)
        ensures
            phase == self@.phase,
    {
        self.phase
    }
}

} // verus!
