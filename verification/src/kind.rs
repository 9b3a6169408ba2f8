//! What a file is, as the operating system reports it.

use vstd::prelude::*;

verus! {

/// The bits of a POSIX `st_mode` that say what a file is.
pub const FORMAT_MASK: u32 = 0o170000;

/// The format bits of a named pipe.
pub const FORMAT_FIFO: u32 = 0o010000;

/// The format bits of a character device.
pub const FORMAT_CHAR_DEVICE: u32 = 0o020000;

/// The format bits of a directory.
pub const FORMAT_DIRECTORY: u32 = 0o040000;

/// The format bits of a block device.
pub const FORMAT_BLOCK_DEVICE: u32 = 0o060000;

/// The format bits of a regular file.
pub const FORMAT_REGULAR: u32 = 0o100000;

/// The format bits of a symbolic link.
pub const FORMAT_SYMLINK: u32 = 0o120000;

/// The format bits of a socket.
pub const FORMAT_SOCKET: u32 = 0o140000;

/// The kinds of file that an operating system tells apart.
#[derive(Clone, Copy, Debug, PartialEq, Eq, Structural)]
pub enum FileKind {
    /// A regular file.
    Regular,
    /// A directory.
    Directory,
    /// A symbolic link.
    Symlink,
    /// A named pipe.
    Fifo,
    /// A socket.
    Socket,
    /// A character device.
    CharDevice,
    /// A block device.
    BlockDevice,
    /// Something that the system gave no known kind.
    Unknown,
}

/// The kind that the format bits of `mode` stand for.
pub open spec fn kind_of_mode(mode: u32) -> FileKind {
    let format = mode & FORMAT_MASK;
    if format == FORMAT_REGULAR {
        FileKind::Regular
    } else if format == FORMAT_DIRECTORY {
        FileKind::Directory
    } else if format == FORMAT_SYMLINK {
        FileKind::Symlink
    } else if format == FORMAT_FIFO {
        FileKind::Fifo
    } else if format == FORMAT_SOCKET {
        FileKind::Socket
    } else if format == FORMAT_CHAR_DEVICE {
        FileKind::CharDevice
    } else if format == FORMAT_BLOCK_DEVICE {
        FileKind::BlockDevice
    } else {
        FileKind::Unknown
    }
}

/// Calls `rustix::fs::FileType::from_raw_mode`, which masks `mode` with
/// `S_IFMT` and matches what is left against the seven `S_IF*` formats. The
/// contract claims that the variant it picks is the one that `kind_of_mode`
/// names, and `Unknown` for every other bit pattern. Not proved.
#[verifier::external_body]
fn file_type_of_mode(mode: u32) -> (kind: FileKind)
    ensures
        kind == kind_of_mode(mode),
{
    match rustix::fs::FileType::from_raw_mode(mode) {
        rustix::fs::FileType::RegularFile => FileKind::Regular,
        rustix::fs::FileType::Directory => FileKind::Directory,
        rustix::fs::FileType::Symlink => FileKind::Symlink,
        rustix::fs::FileType::Fifo => FileKind::Fifo,
        rustix::fs::FileType::Socket => FileKind::Socket,
        rustix::fs::FileType::CharacterDevice => FileKind::CharDevice,
        rustix::fs::FileType::BlockDevice => FileKind::BlockDevice,
        rustix::fs::FileType::Unknown => FileKind::Unknown,
    }
}

impl FileKind {
    /// Whether this is the one kind that a character device handle may wrap.
    pub open spec fn spec_is_char_device(self) -> bool {
        self == FileKind::CharDevice
    }

    /// The kind of the file whose `st_mode` is `mode`. The permission bits
    /// play no part.
    pub fn from_mode(mode: u32) -> (kind: FileKind)
        ensures
            kind == kind_of_mode(mode),
            kind.spec_is_char_device() <==> mode & FORMAT_MASK == FORMAT_CHAR_DEVICE,
    {
        file_type_of_mode(mode)
    }

    /// The kind of a handle of which the system says no more than whether
    /// it is a character device, as Windows does of a handle's type: a
    /// character device where it says so, and of unknown kind where not.
    pub fn from_char_flag(is_char: bool) -> (kind: FileKind)
        ensures
            kind == if is_char {
                FileKind::CharDevice
            } else {
                FileKind::Unknown
            },
    {
        if is_char {
            FileKind::CharDevice
        } else {
            FileKind::Unknown
        }
    }

    /// Whether this is the one kind that a character device handle may wrap.
    #[verifier::when_used_as_spec(spec_is_char_device)]
    pub fn is_char_device(self) -> (yes: bool)
        ensures
            yes == self.spec_is_char_device(),
    {
        match self {
            FileKind::CharDevice => true,
            _ => false,
        }
    }
}

/// The kind of a file rests on the format bits of its mode alone: setting
/// permission bits on a mode leaves its kind as it was.
pub proof fn lemma_kind_with_permissions(mode: u32, permissions: u32)
    requires
        permissions & FORMAT_MASK == 0,
    ensures
        kind_of_mode(mode | permissions) == kind_of_mode(mode),
{
    assert((mode | permissions) & 0o170000u32 == mode & 0o170000u32) by (bit_vector)
        requires
            permissions & 0o170000u32 == 0,
    ;
}

} // verus!
