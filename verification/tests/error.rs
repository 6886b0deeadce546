use rs9p::error::errno_from_ioerror;
use rs9p::error::Errno;
use rs9p::error::Error;
use rs9p::error::IoError;
use rs9p::error::IoErrorKind;

#[test]
fn kinds_map_to_their_error_numbers() {
    let table = [
        (IoErrorKind::NotFound, Errno::ENOENT, 2),
        (IoErrorKind::PermissionDenied, Errno::EPERM, 1),
        (IoErrorKind::ConnectionRefused, Errno::ECONNREFUSED, 111),
        (IoErrorKind::ConnectionReset, Errno::ECONNRESET, 104),
        (IoErrorKind::ConnectionAborted, Errno::ECONNABORTED, 103),
        (IoErrorKind::NotConnected, Errno::ENOTCONN, 107),
        (IoErrorKind::AddrInUse, Errno::EADDRINUSE, 98),
        (IoErrorKind::AddrNotAvailable, Errno::EADDRNOTAVAIL, 99),
        (IoErrorKind::BrokenPipe, Errno::EPIPE, 32),
        (IoErrorKind::AlreadyExists, Errno::EALREADY, 114),
        (IoErrorKind::WouldBlock, Errno::EAGAIN, 11),
        (IoErrorKind::InvalidInput, Errno::EINVAL, 22),
        (IoErrorKind::InvalidData, Errno::EINVAL, 22),
        (IoErrorKind::TimedOut, Errno::ETIMEDOUT, 110),
        (IoErrorKind::WriteZero, Errno::EAGAIN, 11),
        (IoErrorKind::Interrupted, Errno::EINTR, 4),
        (IoErrorKind::UnexpectedEof, Errno::EIO, 5),
        (IoErrorKind::Other, Errno::EIO, 5),
    ];
    for (kind, errno, code) in table {
        assert_eq!(errno_from_ioerror(&IoError::new(kind)), errno);
        assert_eq!(Error::Io(IoError::new(kind)).errno().code(), code);
    }
}

#[test]
fn raw_error_number_goes_before_the_kind() {
    let e = IoError { kind: IoErrorKind::NotFound, raw_os_error: Some(13) };
    assert_eq!(errno_from_ioerror(&e), Errno::EACCES);
    assert_eq!(Error::Io(e).errno().code(), 13);
    assert_eq!(errno_from_ioerror(&IoError::from_raw_os_error(95)), Errno::EOPNOTSUPP);
}

#[test]
fn raw_number_that_names_no_error_is_unknown() {
    for raw in [0, -1, 41, 58, 134, 9999, i32::MAX, i32::MIN] {
        assert_eq!(Errno::from_raw(raw), Errno::UnknownErrno);
        assert_eq!(errno_from_ioerror(&IoError::from_raw_os_error(raw)).code(), 0);
    }
}

#[test]
fn every_error_number_is_found_again() {
    let mut known = 0;
    for raw in 1..=133 {
        let e = Errno::from_raw(raw);
        if e != Errno::UnknownErrno {
            assert_eq!(e.code(), raw as u32);
            known += 1;
        }
    }
    assert_eq!(known, 131);
    assert_eq!(Errno::UnknownErrno.code(), 0);
}

#[test]
fn error_numbers_of_the_protocol() {
    assert_eq!(Errno::EOPNOTSUPP.code(), 95);
    assert_eq!(Errno::ENOSYS.code(), 38);
    assert_eq!(Errno::EPROTONOSUPPORT.code(), 93);
    assert_eq!(Errno::ENOENT.code(), 2);
    assert_eq!(Errno::EHWPOISON.code(), 133);
}

#[test]
fn system_error_keeps_its_number() {
    assert_eq!(Error::No(Errno::EBADF).errno(), Errno::EBADF);
    assert_eq!(Error::from(Errno::EBADF), Error::No(Errno::EBADF));
    let e = IoError::new(IoErrorKind::BrokenPipe);
    assert_eq!(Error::from(e), Error::Io(e));
}
