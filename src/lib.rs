//! Input-event processing: a batch of pointer events is threaded through a
//! chain of stateful processors that turn presses and releases aimed at
//! rectangular widgets into widget events, one output event per input event.

pub mod button;
pub mod event;
pub mod pipeline;
pub mod processor;
