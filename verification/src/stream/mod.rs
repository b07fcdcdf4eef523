pub mod buffer;
pub mod debounce;
pub mod delay;
pub mod interval;
pub mod into_stream;
pub mod sample;
pub mod throttle;
pub mod timeout;
pub mod timeout_once;

pub use buffer::{Buffer, BufferState, BufferView};
pub use debounce::{Debounce, DebounceState};
pub use delay::Delay;
pub use interval::{interval, Interval};
pub use into_stream::IntoStream;
pub use sample::{Sample, SampleState};
pub use throttle::{Throttle, ThrottleState};
pub use timeout::Timeout;
pub use timeout_once::TimeoutOnce;
