//! The two families of operating system that the rules tell apart.

use vstd::prelude::*;

verus! {

/// The family of the operating system that serves the handles.
#[derive(Clone, Copy, Debug, PartialEq, Eq, Structural)]
pub enum Platform {
    /// A system of the POSIX kind, whose handles are file descriptors.
    Posix,
    /// Windows.
    Windows,
}

impl Platform {
    /// The path of the device that discards what is written to it and gives
    /// nothing to read.
    pub open spec fn spec_null_device_path(self) -> Seq<char> {
        match self {
            Platform::Posix => "/dev/null"@,
            Platform::Windows => "nul"@,
        }
    }

    /// Whether the system can be asked how many bytes of a device are ready.
    pub open spec fn spec_counts_ready_bytes(self) -> bool {
        self == Platform::Posix
    }

    /// What a caller is told of a handle that is no character device.
    pub open spec fn spec_refusal(self) -> Seq<char> {
        match self {
            Platform::Posix => "raw fd is not a char device"@,
            Platform::Windows => "raw handle is not a char device"@,
        }
    }

    /// The path of the device that discards what is written to it and gives
    /// nothing to read: `/dev/null` on POSIX, `nul` on Windows.
    pub fn null_device_path(self) -> (path: &'static str)
        ensures
            path@ == self.spec_null_device_path(),
    {
        match self {
            Platform::Posix => "/dev/null",
            Platform::Windows => "nul",
        }
    }

    /// Whether the system can be asked how many bytes of a device are ready
    /// to be read. Where it cannot, nobody asks, and the count is zero.
    #[verifier::when_used_as_spec(spec_counts_ready_bytes)]
    pub fn counts_ready_bytes(self) -> (yes: bool)
        ensures
            yes == self.spec_counts_ready_bytes(),
    {
        match self {
            Platform::Posix => true,
            Platform::Windows => false,
        }
    }

    /// What a caller is told of a handle that is no character device.
    pub fn refusal(self) -> (message: &'static str)
        ensures
            message@ == self.spec_refusal(),
    {
        match self {
            Platform::Posix => "raw fd is not a char device",
            Platform::Windows => "raw handle is not a char device",
        }
    }
}

} // verus!
