//! Validated handles to character devices.
//!
//! A character device is a file that the operating system serves as an
//! unbuffered stream of bytes: a terminal, or the null device. This crate
//! holds the rules by which a handle is admitted as one, and leaves every
//! call into the operating system to its caller: the caller opens, asks and
//! duplicates, and hands over what the system answered.
//!
//! A device is made in three steps. `open` or `null` says what to ask of the
//! system, as an [`OpenRequest`]. The caller performs the request and, where
//! it got a handle, asks the system what the handle is; on POSIX
//! [`FileKind::from_mode`] reads the answer from the mode of the file.
//! `opened` then makes the device or says why there is none. `new` does the
//! same for a handle that the caller already holds.
//!
//! There is one device type for each way of waiting on the system:
//! [`CharDevice`] for handles that block, [`AsyncStdCharDevice`] and
//! [`TokioCharDevice`] for handles of the two cooperative runtimes. They go by
//! one set of rules, which [`admission`] holds.

pub mod admission;
pub mod async_std;
pub mod char_device;
pub mod error;
pub mod kind;
pub mod platform;
pub mod request;
pub mod tokio;

pub use crate::admission::{Assurance, DeviceState};
pub use crate::async_std::AsyncStdCharDevice;
pub use crate::char_device::CharDevice;
pub use crate::error::Error;
pub use crate::kind::FileKind;
pub use crate::platform::Platform;
pub use crate::request::OpenRequest;
pub use crate::tokio::TokioCharDevice;
