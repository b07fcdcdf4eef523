pub mod duration;
pub mod instant;

pub use duration::Duration;
pub use instant::Instant;
