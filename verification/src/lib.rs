//! The logic of a small dice-rolling window: the die and the state that
//! remembers its last roll, the decimal text shown for it, the governor that
//! bounds the rate of the event loop and the clock it reads, the exit rule of
//! the main loop and the widgets declared on every frame.

pub mod clock;
pub mod control;
pub mod dice;
pub mod governor;
pub mod text;
pub mod widgets;
