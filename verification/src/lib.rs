//! Pick a colour off the screen: the decisions behind a one-shot colour
//! picker, stated and proved over plain values.

pub mod color;
pub mod pointer;
pub mod present;
pub mod run;
pub mod screen;
pub mod session;
