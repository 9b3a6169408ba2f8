//! What the operating system is asked to open.

use vstd::prelude::*;
use crate::platform::Platform;

verus! {

/// A request to open a path. The caller performs it, with whatever opens
/// files where it runs. `P` is the caller's type of path, which is carried
/// as it is.
#[derive(Debug)]
pub struct OpenRequest<P> {
    /// The path to open.
    pub path: P,
    /// Whether the handle is to be readable.
    pub read: bool,
    /// Whether the handle is to be writable.
    pub write: bool,
}

impl<P> OpenRequest<P> {
    /// A request to open `path` for reading and writing, as every character
    /// device is opened.
    #[verifier::when_used_as_spec(spec_read_write)]
    pub fn read_write(path: P) -> (request: OpenRequest<P>)
        ensures
            request == Self::spec_read_write(path),
    {
        OpenRequest { path, read: true, write: true }
    }

    /// The request to open `path` for reading and writing.
    pub open spec fn spec_read_write(path: P) -> OpenRequest<P> {
        OpenRequest { path, read: true, write: true }
    }
}

impl OpenRequest<&'static str> {
    /// A request to open the null device of `platform` for reading and
    /// writing.
    pub fn null_device(platform: Platform) -> (request: OpenRequest<&'static str>)
        ensures
            request.read,
            request.write,
            request.path@ == platform.spec_null_device_path(),
    {
        OpenRequest::read_write(platform.null_device_path())
    }
}

} // verus!
