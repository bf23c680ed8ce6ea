//! A triangle-wave blink pattern for one LED, paced by a periodic interrupt
//! timer: the delay between toggles falls step by step to a minimum, rises
//! back to a maximum, and so on without end.

pub mod board;
pub mod isr;
pub mod pattern;
pub mod timer;
pub mod trace;
pub mod wave;
