pub mod cancel;
pub mod deadline_future;
pub mod delay;
pub mod into_future;
pub mod park;
pub mod parker;
pub mod reset_future;
pub mod signal;
pub mod timeout;

pub use cancel::{cancel, CancelReceiver, CancelSender};
pub use deadline_future::ResetDeadlineFuture;
pub use delay::Delay;
pub use into_future::IntoFuture;
pub use park::{Park, Token};
pub use parker::{parker, Parker, Unparker};
pub use reset_future::ResetFuture;
pub use signal::{signal, SignalReceiver, SignalSender};
pub use timeout::Timeout;
