//! The pattern's bounds, the blink state, and the rule that advances it.

use vstd::prelude::*;

verus! {

/// Delay of the fastest blink, in milliseconds.
pub const MIN_DELAY_MS: u32 = 5;

/// Delay of the slowest blink, in milliseconds.
pub const MAX_DELAY_MS: u32 = 250;

/// By how much the delay changes from one firing to the next, in milliseconds.
pub const STEP_MS: u32 = 5;

/// The bounds between which the delay swings, and the size of one step.
#[derive(Clone, Copy, Debug, PartialEq, Eq, Structural)]
pub struct Pattern {
    pub min_delay_ms: u32,
    pub max_delay_ms: u32,
    pub step_ms: u32,
}

/// The blink state as a mathematical value: the delay is an unbounded integer.
pub struct Beat {
    pub delay_ms: int,
    pub accelerating: bool,
}

/// The delay now in force and the direction in which it moves. While
/// `accelerating` holds the next step shortens the delay; otherwise the next
/// step lengthens it.
#[derive(Clone, Copy, Debug, PartialEq, Eq, Structural)]
pub struct BlinkState {
    pub current_delay_ms: u32,
    pub accelerating: bool,
}

impl View for BlinkState {
    type V = Beat;

    open spec fn view(&self) -> Beat {
        Beat { delay_ms: self.current_delay_ms as int, accelerating: self.accelerating }
    }
}

/// The pattern of the three constants above.
pub open spec fn standard_pattern() -> Pattern {
    Pattern { min_delay_ms: MIN_DELAY_MS, max_delay_ms: MAX_DELAY_MS, step_ms: STEP_MS }
}

/// The beat a pattern starts from: the slowest delay, about to speed up.
pub open spec fn initial(p: Pattern) -> Beat {
    Beat { delay_ms: p.max_delay_ms as int, accelerating: true }
}

/// The delay lies between the pattern's bounds.
pub open spec fn in_bounds(p: Pattern, b: Beat) -> bool {
    p.min_delay_ms <= b.delay_ms <= p.max_delay_ms
}

/// One more whole step would reach or pass the bound that the delay is moving
/// towards, so the next step lands on that bound and turns round.
pub open spec fn at_turn(p: Pattern, b: Beat) -> bool {
    if b.accelerating {
        b.delay_ms <= p.min_delay_ms + p.step_ms
    } else {
        b.delay_ms >= p.max_delay_ms - p.step_ms
    }
}

/// The bound that the delay is moving towards.
pub open spec fn target(p: Pattern, b: Beat) -> int {
    if b.accelerating {
        p.min_delay_ms as int
    } else {
        p.max_delay_ms as int
    }
}

/// The transition rule: move one step towards the target, or land on it and
/// turn round.
pub open spec fn advance(p: Pattern, b: Beat) -> Beat {
    if at_turn(p, b) {
        Beat { delay_ms: target(p, b), accelerating: !b.accelerating }
    } else if b.accelerating {
        Beat { delay_ms: b.delay_ms - p.step_ms, accelerating: true }
    } else {
        Beat { delay_ms: b.delay_ms + p.step_ms, accelerating: false }
    }
}

/// The beat reached from `b` by `n` steps.
pub open spec fn after(p: Pattern, b: Beat, n: nat) -> Beat
    decreases n,
{
    if n == 0 {
        b
    } else {
        advance(p, after(p, b, (n - 1) as nat))
    }
}

impl Pattern {
    /// The lower bound lies strictly below the upper one.
    pub open spec fn wf(&self) -> bool {
        self.min_delay_ms < self.max_delay_ms
    }

    /// A pattern with the given bounds and step, where the bounds are in order.
    pub fn new(min_delay_ms: u32, max_delay_ms: u32, step_ms: u32) -> (p: Option<Pattern>)
        ensures
            min_delay_ms < max_delay_ms ==> p == Some(
                (Pattern { min_delay_ms, max_delay_ms, step_ms }),
            ),
            min_delay_ms >= max_delay_ms ==> p.is_none(),
    {
        if min_delay_ms < max_delay_ms {
            Some(Pattern { min_delay_ms, max_delay_ms, step_ms })
        } else {
            None
        }
    }

    /// The pattern of the three constants above.
    pub fn standard() -> (p: Pattern)
        ensures
            p == standard_pattern(),
            p.wf(),
    {
        Pattern { min_delay_ms: MIN_DELAY_MS, max_delay_ms: MAX_DELAY_MS, step_ms: STEP_MS }
    }
}

impl BlinkState {
    /// The state at power-on.
    pub fn new(p: &Pattern) -> (s: BlinkState)
        ensures
            s@ == initial(*p),
            p.wf() ==> in_bounds(*p, s@),
    {
        BlinkState { current_delay_ms: p.max_delay_ms, accelerating: true }
    }

    /// Applies the transition rule once. The direction changes exactly when the
    /// delay lands on the bound it was moving towards.
    pub fn step(&mut self, p: &Pattern)
        requires
            in_bounds(*p, old(self)@),
        ensures
            final(self)@ == advance(*p, old(self)@),
            in_bounds(*p, final(self)@),
            final(self).accelerating != old(self).accelerating <==> at_turn(*p, old(self)@),
            final(self).current_delay_ms == target(*p, old(self)@) <==> at_turn(*p, old(self)@),
    {
        if self.accelerating {
            if self.current_delay_ms - p.min_delay_ms > p.step_ms {
                self.current_delay_ms = self.current_delay_ms - p.step_ms;
            } else {
                self.current_delay_ms = p.min_delay_ms;
                self.accelerating = false;
            }
        } else if p.max_delay_ms - self.current_delay_ms > p.step_ms {
            self.current_delay_ms = self.current_delay_ms + p.step_ms;
        } else {
            self.current_delay_ms = p.max_delay_ms;
            self.accelerating = true;
        }
    }
}

} // verus!
