//! The rules that every kind of device handle goes by: when a handle is
//! admitted as a character device, and how many bytes it is said to hold
//! ready.

use vstd::prelude::*;
use crate::error::Error;
use crate::kind::FileKind;

verus! {

/// On what ground a handle is held to be a character device.
#[derive(Clone, Copy, Debug, PartialEq, Eq, Structural)]
pub enum Assurance {
    /// The operating system said that it is one.
    Confirmed,
    /// The operating system has no way to say what a handle is, and the
    /// handle was let through unexamined. Nothing is known of it.
    Undetermined,
    /// Nobody asked: whoever made the device vouched for the handle.
    Unchecked,
}

/// What a device is, to the contracts: the handle that it owns, and the
/// ground on which the handle is held to be a character device.
pub ghost struct DeviceState<H> {
    /// The handle that the device owns.
    pub handle: H,
    /// On what ground it is held to be a character device.
    pub assurance: Assurance,
}

/// What becomes of a handle once the operating system has been asked what
/// it is. `kind` is the answer: an error where the question failed, `None`
/// where the system has no way to tell, else the kind it reported.
pub open spec fn admission<E>(kind: Result<Option<FileKind>, E>) -> Result<Assurance, Error<E>> {
    match kind {
        Err(e) => Err(Error::Os(e)),
        Ok(None) => Ok(Assurance::Undetermined),
        Ok(Some(FileKind::CharDevice)) => Ok(Assurance::Confirmed),
        Ok(Some(_)) => Err(Error::NotACharDevice),
    }
}

/// The device that `handle` makes, or the reason why it makes none, once
/// the operating system has answered `kind`.
pub open spec fn admitted<H, E>(handle: H, kind: Result<Option<FileKind>, E>) -> Result<
    DeviceState<H>,
    Error<E>,
> {
    match admission(kind) {
        Ok(assurance) => Ok(DeviceState { handle, assurance }),
        Err(e) => Err(e),
    }
}

/// The device that an attempt to open makes, or the reason why it makes
/// none. `answer` is what the operating system answered: its error where it
/// did not open, else the handle, and with it the answer to the question
/// that follows, what the handle is.
pub open spec fn opened<H, E>(answer: Result<(H, Result<Option<FileKind>, E>), E>) -> Result<
    DeviceState<H>,
    Error<E>,
> {
    match answer {
        Err(e) => Err(Error::Os(e)),
        Ok((handle, kind)) => admitted(handle, kind),
    }
}

/// The device that a duplicate of the handle of `state` makes. `duplicate`
/// is what the operating system answered when asked for one.
pub open spec fn duplicated<H, E>(state: DeviceState<H>, duplicate: Result<H, E>) -> Result<
    DeviceState<H>,
    Error<E>,
> {
    match duplicate {
        Ok(handle) => Ok(DeviceState { handle, assurance: state.assurance }),
        Err(e) => Err(Error::Os(e)),
    }
}

/// How many bytes are said to be ready. `reported` is `None` where the
/// operating system cannot be asked, and what it answered elsewhere.
pub open spec fn ready_bytes<E>(reported: Option<Result<u64, E>>) -> Result<u64, Error<E>> {
    match reported {
        None => Ok(0),
        Some(Ok(count)) => Ok(count),
        Some(Err(e)) => Err(Error::Os(e)),
    }
}

/// Decides whether a handle is admitted, from what the operating system
/// answered when asked what the handle is.
pub fn judge<E>(kind: Result<Option<FileKind>, E>) -> (verdict: Result<Assurance, Error<E>>)
    ensures
        verdict == admission(kind),
{
    match kind {
        Err(e) => Err(Error::Os(e)),
        Ok(None) => Ok(Assurance::Undetermined),
        Ok(Some(kind)) => {
            if kind.is_char_device() {
                Ok(Assurance::Confirmed)
            } else {
                Err(Error::NotACharDevice)
            }
        },
    }
}

/// Says how many bytes are ready: what the operating system counted, its
/// error where it failed, and zero where it cannot be asked.
pub fn count_ready<E>(reported: Option<Result<u64, E>>) -> (count: Result<u64, Error<E>>)
    ensures
        count == ready_bytes(reported),
{
    match reported {
        None => Ok(0),
        Some(Ok(count)) => Ok(count),
        Some(Err(e)) => Err(Error::Os(e)),
    }
}

/// A handle is admitted as confirmed exactly when the operating system
/// reported a character device, and a reported kind other than that is
/// refused as no character device; no handle is admitted as unchecked.
pub proof fn lemma_admission_by_kind<E>(kind: Result<Option<FileKind>, E>)
    ensures
        admission(kind) == Ok::<Assurance, Error<E>>(Assurance::Confirmed) <==> kind == Ok::<
            Option<FileKind>,
            E,
        >(Some(FileKind::CharDevice)),
        admission(kind) == Err::<Assurance, Error<E>>(Error::NotACharDevice) <==> (kind matches Ok(
            Some(reported),
        ) && reported != FileKind::CharDevice),
        admission(kind) != Ok::<Assurance, Error<E>>(Assurance::Unchecked),
        admission(kind) is Ok <==> (kind == Ok::<Option<FileKind>, E>(Some(FileKind::CharDevice))
            || kind == Ok::<Option<FileKind>, E>(None)),
{
}

/// What comes of an attempt to open, answer by answer. A device is made
/// exactly when the system opened the path and then either reported a
/// character device or had no way to tell; it owns the handle that the
/// system gave. A path that was opened and reported as anything else is
/// refused as no character device. Every other failure is an error of the
/// system, given back as it came.
pub proof fn lemma_opened_by_answer<H, E>(answer: Result<(H, Result<Option<FileKind>, E>), E>)
    ensures
        opened(answer) matches Ok(state) ==> (answer matches Ok((handle, kind)) && state.handle
            == handle && (kind == Ok::<Option<FileKind>, E>(Some(FileKind::CharDevice))
            && state.assurance == Assurance::Confirmed || kind == Ok::<Option<FileKind>, E>(None)
            && state.assurance == Assurance::Undetermined)),
        (answer matches Ok((_, kind)) && (kind == Ok::<Option<FileKind>, E>(
            Some(FileKind::CharDevice),
        ) || kind == Ok::<Option<FileKind>, E>(None))) ==> opened(answer) is Ok,
        opened(answer) == Err::<DeviceState<H>, Error<E>>(Error::NotACharDevice) <==> (
        answer matches Ok((_, Ok(Some(reported)))) && reported != FileKind::CharDevice),
        forall|e: E|
            opened(answer) == Err::<DeviceState<H>, Error<E>>(Error::Os(e)) <==> (answer == Err::<
                (H, Result<Option<FileKind>, E>),
                E,
            >(e) || (answer matches Ok((_, kind)) && kind == Err::<Option<FileKind>, E>(e))),
{
}

/// A duplicate stands on the ground of the device that it was taken from,
/// and owns the handle that the system gave for it.
pub proof fn lemma_duplicate_keeps_ground<H, E>(state: DeviceState<H>, handle: H)
    ensures
        duplicated(state, Ok::<H, E>(handle)) == Ok::<DeviceState<H>, Error<E>>(
            DeviceState { handle, assurance: state.assurance },
        ),
{
}

/// The count of ready bytes never promises more than there is. Let
/// `retrievable` be the number of bytes that a read could take at once, and
/// let the operating system, where it counted, have counted no more than
/// that: then neither does `ready_bytes`. Where the system cannot be asked the
/// count is zero.
pub proof fn lemma_ready_bytes_never_over_promise<E>(
    reported: Option<Result<u64, E>>,
    retrievable: nat,
)
    requires
        reported matches Some(Ok(counted)) ==> counted <= retrievable,
    ensures
        ready_bytes(reported) matches Ok(count) ==> count <= retrievable,
        reported is None ==> ready_bytes(reported) == Ok::<u64, Error<E>>(0),
{
}

} // verus!
