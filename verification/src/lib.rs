//! Decision core of a bare-metal control application.
//!
//! Every rule the firmware follows is a verified function on plain values:
//! the hardware shell performs the actions these functions ask for and feeds
//! the outcomes back.

pub mod control;
pub mod fault;
pub mod frame;
pub mod handlers;
pub mod heap;
pub mod line;
pub mod sink;
pub mod text;
