//! Status-bar rendering of an editor's clock-tracking state, as announced
//! over the session message bus.
pub mod cli;
pub mod clock;
pub mod monitor;
pub mod span_bound;
pub mod text;
