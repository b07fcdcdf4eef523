pub mod sleep;
pub mod sleep_until;
pub mod timer;

pub use sleep::{sleep, Sleep};
pub use sleep_until::{sleep_until, SleepUntil};
pub use timer::Timer;
