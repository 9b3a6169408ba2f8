//! Why a device could not be had.

use vstd::prelude::*;

verus! {

/// Why a device could not be had. `E` is the error type of the operating
/// system's calls, which this crate carries and never looks into.
#[derive(Debug)]
pub enum Error<E> {
    /// The handle is open, and what it refers to is no character device.
    NotACharDevice,
    /// The operating system failed a call; its error, as it gave it.
    Os(E),
}

impl<E> Error<E> {
    /// Whether the device type check is what failed.
    #[verifier::when_used_as_spec(spec_is_not_a_char_device)]
    pub fn is_not_a_char_device(&self) -> (yes: bool)
        ensures
            yes == (self is NotACharDevice),
    {
        match self {
            Error::NotACharDevice => true,
            Error::Os(_) => false,
        }
    }

    /// Whether the device type check is what failed.
    pub open spec fn spec_is_not_a_char_device(&self) -> bool {
        self is NotACharDevice
    }

    /// The operating system's error, if one is held.
    pub fn into_os(self) -> (os: Option<E>)
        ensures
            os == match self {
                Error::NotACharDevice => None,
                Error::Os(e) => Some(e),
            },
    {
        match self {
            Error::NotACharDevice => None,
            Error::Os(e) => Some(e),
        }
    }
}

} // verus!
