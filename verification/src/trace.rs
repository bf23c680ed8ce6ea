//! The routine over a whole sequence of events, whatever the hardware
//! reports: toggles, steps of the blink state and served firings keep pace
//! with one another.

use crate::isr::{react, reply_to, Action, Event, Phase, Reply, Routine};
use crate::pattern::after;
use vstd::prelude::*;

verus! {

/// The routine after a sequence of events.
pub open spec fn run(r: Routine, events: Seq<Event>) -> Routine
    decreases events.len(),
{
    if events.len() == 0 {
        r
    } else {
        react(run(r, events.drop_last()), events.last())
    }
}

/// The routine's answers to a sequence of events, one for each.
pub open spec fn replies(r: Routine, events: Seq<Event>) -> Seq<Reply>
    decreases events.len(),
{
    if events.len() == 0 {
        Seq::empty()
    } else {
        replies(r, events.drop_last()).push(reply_to(run(r, events.drop_last()), events.last()))
    }
}

/// How often the answers ask for a toggle of the LED.
pub open spec fn toggles(answers: Seq<Reply>) -> nat
    decreases answers.len(),
{
    if answers.len() == 0 {
        0
    } else {
        toggles(answers.drop_last()) + if answers.last() == Reply::Perform(Action::ToggleLed) {
            1nat
        } else {
            0nat
        }
    }
}

/// How often the answers ask to load the timer.
pub open spec fn arms(answers: Seq<Reply>) -> nat
    decreases answers.len(),
{
    if answers.len() == 0 {
        0
    } else {
        arms(answers.drop_last()) + if answers.last() matches Reply::Perform(Action::Arm(_)) {
            1nat
        } else {
            0nat
        }
    }
}

/// How often the answers end a firing.
pub open spec fn finishes(answers: Seq<Reply>) -> nat
    decreases answers.len(),
{
    if answers.len() == 0 {
        0
    } else {
        finishes(answers.drop_last()) + if answers.last() == Reply::Finished {
            1nat
        } else {
            0nat
        }
    }
}

/// Starting between firings, and whatever events arrive, in place or out of
/// place: the blink state has taken one step for each time the timer was
/// loaded; the LED has been toggled once for each of these steps, and once
/// more only while a toggle is under way; and each served firing accounts for
/// one step, with one more only while a firing is past its toggle. So a
/// firing that has been served toggled the LED exactly once and took exactly
/// one step.
pub proof fn lemma_one_toggle_per_step(r: Routine, events: Seq<Event>)
    requires
        r.phase == Phase::Idle,
    ensures
        run(r, events).pattern == r.pattern,
        run(r, events).freq_hz == r.freq_hz,
        run(r, events).beat == after(r.pattern, r.beat, arms(replies(r, events))),
        toggles(replies(r, events)) == arms(replies(r, events)) + if run(r, events).phase
            == Phase::Toggling {
            1nat
        } else {
            0nat
        },
        arms(replies(r, events)) == finishes(replies(r, events)) + if run(r, events).phase
            == Phase::Idle || run(r, events).phase == Phase::Toggling {
            0nat
        } else {
            1nat
        },
    decreases events.len(),
{
    if events.len() > 0 {
        let before = events.drop_last();
        lemma_one_toggle_per_step(r, before);
        let answers = replies(r, events);
        assert(answers.drop_last() =~= replies(r, before));
        assert(answers.last() == reply_to(run(r, before), events.last()));
    }
}

} // verus!
