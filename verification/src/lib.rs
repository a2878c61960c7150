//! Break-timer logic of the cockroach reminder: the countdown state machine,
//! the text shown for it, the crawling heading of each cockroach, the
//! overlay lifecycle of the main loop and the integer side of sprite loading.

pub mod constants;
pub mod heading;
pub mod runtime;
pub mod settings;
pub mod sprite;
pub mod text;
pub mod timer;
