//! A character device behind a handle of a cooperative runtime of the
//! tokio kind.

use vstd::prelude::*;
use crate::admission::{admitted, opened, ready_bytes, Assurance, DeviceState};
use crate::char_device::CharDevice;
use crate::error::Error;
use crate::kind::FileKind;
use crate::platform::Platform;
use crate::request::OpenRequest;

verus! {

/// An unbuffered character device whose handle `H` belongs to a cooperative
/// runtime of the tokio kind: reads and writes on it suspend the task in
/// place of blocking the thread.
///
/// The rules are those of [`CharDevice`], which it wraps. The caller awaits
/// the operating system's answers and hands them over when they are there.
#[derive(Debug)]
pub struct TokioCharDevice<H> {
    device: CharDevice<H>,
}

impl<H> View for TokioCharDevice<H> {
    type V = DeviceState<H>;

    closed spec fn view(&self) -> DeviceState<H> {
        self.device@
    }
}

impl<H> TokioCharDevice<H> {
    /// Makes a device of `handle`, if it is one. `kind` is what the
    /// operating system answered when asked what the handle is: an error
    /// where the question failed, `None` where the system has no way to
    /// tell, else the kind it reported.
    ///
    /// A handle reported as a character device is admitted as confirmed. Any
    /// other reported kind is refused. A failed question gives the system's
    /// error back. A handle of which the system cannot tell anything is let
    /// through, and marked as undetermined.
    pub fn new<E>(handle: H, kind: Result<Option<FileKind>, E>) -> (made: Result<Self, Error<E>>)
        ensures
            match made {
                Ok(device) => admitted(handle, kind) == Ok::<DeviceState<H>, Error<E>>(device@),
                Err(e) => admitted(handle, kind) == Err::<DeviceState<H>, Error<E>>(e),
            },
    {
        match CharDevice::new(handle, kind) {
            Ok(device) => Ok(TokioCharDevice { device }),
            Err(e) => Err(e),
        }
    }

    /// What to ask of the operating system for the device at `path`: to open
    /// it for reading and writing. What the system answers goes to `opened`.
    pub fn open<P>(path: P) -> (request: OpenRequest<P>)
        ensures
            request == OpenRequest::read_write(path),
    {
        OpenRequest::read_write(path)
    }

    /// Makes a device of what came of a request to open. `answer` is what
    /// the operating system answered: its error where it did not open, else
    /// the handle, and with it the answer to the question that follows, what
    /// the handle is. An error of the system is given back as it came; a
    /// handle goes the way of `new`.
    pub fn opened<E>(answer: Result<(H, Result<Option<FileKind>, E>), E>) -> (made: Result<
        Self,
        Error<E>,
    >)
        ensures
            match made {
                Ok(device) => opened(answer) == Ok::<DeviceState<H>, Error<E>>(device@),
                Err(e) => opened(answer) == Err::<DeviceState<H>, Error<E>>(e),
            },
    {
        match answer {
            Err(e) => Err(Error::Os(e)),
            Ok((handle, kind)) => Self::new(handle, kind),
        }
    }

    /// Makes a device of `handle` without asking what it is. The caller
    /// vouches for the handle, and the device is marked as unchecked.
    pub fn new_unchecked(handle: H) -> (device: Self)
        ensures
            device@ == (DeviceState { handle, assurance: Assurance::Unchecked }),
    {
        TokioCharDevice { device: CharDevice::new_unchecked(handle) }
    }

    /// What to ask of the operating system for the device that discards
    /// writes and reads nothing: to open `/dev/null` on POSIX, `nul` on
    /// Windows, for reading and writing. What the system answers goes to
    /// `opened`.
    pub fn null(platform: Platform) -> (request: OpenRequest<&'static str>)
        ensures
            request.read,
            request.write,
            request.path@ == platform.spec_null_device_path(),
    {
        OpenRequest::null_device(platform)
    }

    /// The number of bytes that are ready to be read at once. `reported` is
    /// `None` where the operating system cannot be asked, and there the
    /// answer is zero; elsewhere it is what the system answered, which is
    /// given back as it is.
    pub fn num_ready_bytes<E>(&self, reported: Option<Result<u64, E>>) -> (count: Result<
        u64,
        Error<E>,
    >)
        ensures
            count == ready_bytes(reported),
    {
        self.device.num_ready_bytes(reported)
    }

    /// On what ground the handle is held to be a character device.
    pub fn assurance(&self) -> (assurance: Assurance)
        ensures
            assurance == self@.assurance,
    {
        self.device.assurance()
    }

    /// The handle, to read from and to write to.
    pub fn handle(&self) -> (handle: &H)
        ensures
            *handle == self@.handle,
    {
        self.device.handle()
    }

    /// The handle, for reads and writes that need it whole. What is done to
    /// the handle leaves the device's ground as it was.
    pub fn handle_mut(&mut self) -> (handle: &mut H)
        ensures
            *handle == old(self)@.handle,
            final(self)@ == (DeviceState {
                handle: *final(handle),
                assurance: old(self)@.assurance,
            }),
    {
        self.device.handle_mut()
    }

    /// Gives the handle up, and with it the device.
    pub fn into_handle(self) -> (handle: H)
        ensures
            handle == self@.handle,
    {
        self.device.into_handle()
    }
}

} // verus!
