//! Core of a minimal terminal shell: the events that flow from the input
//! source to the application loop, the tick clock that paces them, the
//! loop's dispatch state machine and the layout of the single panel it draws.

pub mod clock;
pub mod control;
pub mod event;
pub mod view;
