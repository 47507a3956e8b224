//! A signal-subscription registry: bind an OS process signal to a pollable
//! handle, wait for the next delivery, and unbind at any time without
//! stranding a task that is suspended in a wait.

pub mod lifecycle;
pub mod signal;

pub use signal::init;
pub use signal::PollStep;
pub use signal::ResourceModel;
pub use signal::SignalError;
pub use signal::SignalManager;
pub use signal::SignalStreamResource;
pub use signal::SubscriptionStatus;
