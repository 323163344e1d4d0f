//! The driver's errors.
use vstd::prelude::*;

verus! {

/// Errors of the platform underneath the driver.
#[derive(Clone, Copy, Debug, PartialEq, Eq, Structural)]
pub enum GenericError {
    Timeout,
    Clock,
    Unsupported,
}

#[derive(Clone, Copy, Debug, PartialEq, Eq, Structural)]
pub enum Error {
    Overflow,
    BaudDetection,
    Busy,
    Uninitialized,
    StateTimeout,
    PoweredDown,
    AttachTimeout,
    ContextActivationTimeout,
    InvalidStateTransition,
    Network,
    Generic(GenericError),
    /// The AT exchange failed.
    Atat,
    _Unknown,
    /// A pin could not be read or driven.
    IoPin,
    /// No subscriber slot was free on a channel.
    SubscriberOverflow,
}

} // verus!
