use char_device::{AsyncStdCharDevice, Assurance, CharDevice, Error, FileKind, TokioCharDevice};
use rustix::fd::OwnedFd;
use rustix::fs::{fstat, memfd_create, seek, MemfdFlags, Mode, OFlags, SeekFrom};
use rustix::io::Errno;

fn kind_of(fd: &OwnedFd) -> Result<Option<FileKind>, Errno> {
    fstat(fd).map(|stat| Some(FileKind::from_mode(stat.st_mode)))
}

#[test]
fn regular_file_is_not_a_char_device() {
    let fd = memfd_create("regular", MemfdFlags::CLOEXEC).unwrap();
    let kind = kind_of(&fd);
    assert_eq!(kind, Ok(Some(FileKind::Regular)));
    let made = CharDevice::new(fd, kind);
    assert!(matches!(made, Err(Error::NotACharDevice)));
}

#[test]
fn directory_is_not_a_char_device() {
    let fd = rustix::fs::open("/", OFlags::RDONLY | OFlags::DIRECTORY, Mode::empty()).unwrap();
    let kind = kind_of(&fd);
    assert_eq!(kind, Ok(Some(FileKind::Directory)));
    let made = CharDevice::new(fd, kind);
    assert!(matches!(made, Err(Error::NotACharDevice)));
}

#[test]
fn regular_file_is_refused_by_the_async_devices_too() {
    let fd = memfd_create("regular", MemfdFlags::CLOEXEC).unwrap();
    let kind = kind_of(&fd);
    assert!(matches!(
        TokioCharDevice::new(fd, kind),
        Err(Error::NotACharDevice)
    ));
    let fd = memfd_create("regular", MemfdFlags::CLOEXEC).unwrap();
    let kind = kind_of(&fd);
    assert!(matches!(
        AsyncStdCharDevice::new(fd, kind),
        Err(Error::NotACharDevice)
    ));
}

#[test]
fn ready_bytes_do_not_exceed_what_a_read_takes() {
    let fd = memfd_create("ready", MemfdFlags::CLOEXEC).unwrap();
    assert_eq!(rustix::io::write(&fd, b"hello").unwrap(), 5);
    assert_eq!(seek(&fd, SeekFrom::Start(0)).unwrap(), 0);
    let device = CharDevice::new_unchecked(fd);
    assert_eq!(device.assurance(), Assurance::Unchecked);

    let reported = rustix::io::ioctl_fionread(device.handle());
    let count = device.num_ready_bytes(Some(reported)).unwrap();
    assert_eq!(count, 5);

    let mut buf = [0_u8; 32];
    let taken = rustix::io::read(device.handle(), &mut buf[..]).unwrap();
    assert_eq!(taken, 5);
    assert!(count <= taken as u64);
    assert_eq!(&buf[..taken], b"hello");
}

#[test]
fn clone_sees_what_the_first_handle_wrote() {
    let fd = memfd_create("shared", MemfdFlags::CLOEXEC).unwrap();
    let device = CharDevice::new_unchecked(fd);
    let duplicate = rustix::io::dup(device.handle());
    let clone = device.try_clone(duplicate).unwrap();
    assert_eq!(clone.assurance(), Assurance::Unchecked);

    assert_eq!(rustix::io::write(device.handle(), b"abc").unwrap(), 3);
    // Both handles share one position: the clone stands behind what was written.
    assert_eq!(seek(clone.handle(), SeekFrom::Current(0)).unwrap(), 3);
    assert_eq!(seek(clone.handle(), SeekFrom::Start(0)).unwrap(), 0);
    let mut buf = [0_u8; 8];
    assert_eq!(rustix::io::read(device.handle(), &mut buf[..]).unwrap(), 3);
    assert_eq!(&buf[..3], b"abc");
}

#[test]
fn handle_comes_back_as_it_went_in() {
    let fd = memfd_create("kept", MemfdFlags::CLOEXEC).unwrap();
    let inode = fstat(&fd).unwrap().st_ino;
    let mut device = CharDevice::new_unchecked(fd);
    assert_eq!(fstat(device.handle()).unwrap().st_ino, inode);
    assert_eq!(fstat(&*device.handle_mut()).unwrap().st_ino, inode);
    let fd = device.into_handle();
    assert_eq!(fstat(&fd).unwrap().st_ino, inode);
}
