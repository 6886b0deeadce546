//! Error representations of the 9P2000.L protocol.
//!
//! Since 9P2000.L, a failure travels on the wire as a Linux error number.
//! This module holds the closed set of those numbers, a plain model of a
//! host I/O error, and the mapping from the latter to the former.

use vstd::prelude::*;
use vstd::std_specs::convert::FromSpecImpl;

verus! {

/// Linux error numbers.
///
/// `UnknownErrno` stands for every number that names no error.
#[allow(non_camel_case_types)]
#[derive(Clone, Copy, Debug, PartialEq, Eq, Structural)]
pub enum Errno {
    UnknownErrno,
    EPERM,
    ENOENT,
    ESRCH,
    EINTR,
    EIO,
    ENXIO,
    E2BIG,
    ENOEXEC,
    EBADF,
    ECHILD,
    EAGAIN,
    ENOMEM,
    EACCES,
    EFAULT,
    ENOTBLK,
    EBUSY,
    EEXIST,
    EXDEV,
    ENODEV,
    ENOTDIR,
    EISDIR,
    EINVAL,
    ENFILE,
    EMFILE,
    ENOTTY,
    ETXTBSY,
    EFBIG,
    ENOSPC,
    ESPIPE,
    EROFS,
    EMLINK,
    EPIPE,
    EDOM,
    ERANGE,
    EDEADLK,
    ENAMETOOLONG,
    ENOLCK,
    ENOSYS,
    ENOTEMPTY,
    ELOOP,
    ENOMSG,
    EIDRM,
    ECHRNG,
    EL2NSYNC,
    EL3HLT,
    EL3RST,
    ELNRNG,
    EUNATCH,
    ENOCSI,
    EL2HLT,
    EBADE,
    EBADR,
    EXFULL,
    ENOANO,
    EBADRQC,
    EBADSLT,
    EBFONT,
    ENOSTR,
    ENODATA,
    ETIME,
    ENOSR,
    ENONET,
    ENOPKG,
    EREMOTE,
    ENOLINK,
    EADV,
    ESRMNT,
    ECOMM,
    EPROTO,
    EMULTIHOP,
    EDOTDOT,
    EBADMSG,
    EOVERFLOW,
    ENOTUNIQ,
    EBADFD,
    EREMCHG,
    ELIBACC,
    ELIBBAD,
    ELIBSCN,
    ELIBMAX,
    ELIBEXEC,
    EILSEQ,
    ERESTART,
    ESTRPIPE,
    EUSERS,
    ENOTSOCK,
    EDESTADDRREQ,
    EMSGSIZE,
    EPROTOTYPE,
    ENOPROTOOPT,
    EPROTONOSUPPORT,
    ESOCKTNOSUPPORT,
    EOPNOTSUPP,
    EPFNOSUPPORT,
    EAFNOSUPPORT,
    EADDRINUSE,
    EADDRNOTAVAIL,
    ENETDOWN,
    ENETUNREACH,
    ENETRESET,
    ECONNABORTED,
    ECONNRESET,
    ENOBUFS,
    EISCONN,
    ENOTCONN,
    ESHUTDOWN,
    ETOOMANYREFS,
    ETIMEDOUT,
    ECONNREFUSED,
    EHOSTDOWN,
    EHOSTUNREACH,
    EALREADY,
    EINPROGRESS,
    ESTALE,
    EUCLEAN,
    ENOTNAM,
    ENAVAIL,
    EISNAM,
    EREMOTEIO,
    EDQUOT,
    ENOMEDIUM,
    EMEDIUMTYPE,
    ECANCELED,
    ENOKEY,
    EKEYEXPIRED,
    EKEYREVOKED,
    EKEYREJECTED,
    EOWNERDEAD,
    ENOTRECOVERABLE,
    ERFKILL,
    EHWPOISON,
}

impl Errno {
    /// The number that Linux gives to this error; `UnknownErrno` is 0.
    pub open spec fn number(self) -> int {
        match self {
            Errno::UnknownErrno => 0,
            Errno::EPERM => 1,
            Errno::ENOENT => 2,
            Errno::ESRCH => 3,
            Errno::EINTR => 4,
            Errno::EIO => 5,
            Errno::ENXIO => 6,
            Errno::E2BIG => 7,
            Errno::ENOEXEC => 8,
            Errno::EBADF => 9,
            Errno::ECHILD => 10,
            Errno::EAGAIN => 11,
            Errno::ENOMEM => 12,
            Errno::EACCES => 13,
            Errno::EFAULT => 14,
            Errno::ENOTBLK => 15,
            Errno::EBUSY => 16,
            Errno::EEXIST => 17,
            Errno::EXDEV => 18,
            Errno::ENODEV => 19,
            Errno::ENOTDIR => 20,
            Errno::EISDIR => 21,
            Errno::EINVAL => 22,
            Errno::ENFILE => 23,
            Errno::EMFILE => 24,
            Errno::ENOTTY => 25,
            Errno::ETXTBSY => 26,
            Errno::EFBIG => 27,
            Errno::ENOSPC => 28,
            Errno::ESPIPE => 29,
            Errno::EROFS => 30,
            Errno::EMLINK => 31,
            Errno::EPIPE => 32,
            Errno::EDOM => 33,
            Errno::ERANGE => 34,
            Errno::EDEADLK => 35,
            Errno::ENAMETOOLONG => 36,
            Errno::ENOLCK => 37,
            Errno::ENOSYS => 38,
            Errno::ENOTEMPTY => 39,
            Errno::ELOOP => 40,
            Errno::ENOMSG => 42,
            Errno::EIDRM => 43,
            Errno::ECHRNG => 44,
            Errno::EL2NSYNC => 45,
            Errno::EL3HLT => 46,
            Errno::EL3RST => 47,
            Errno::ELNRNG => 48,
            Errno::EUNATCH => 49,
            Errno::ENOCSI => 50,
            Errno::EL2HLT => 51,
            Errno::EBADE => 52,
            Errno::EBADR => 53,
            Errno::EXFULL => 54,
            Errno::ENOANO => 55,
            Errno::EBADRQC => 56,
            Errno::EBADSLT => 57,
            Errno::EBFONT => 59,
            Errno::ENOSTR => 60,
            Errno::ENODATA => 61,
            Errno::ETIME => 62,
            Errno::ENOSR => 63,
            Errno::ENONET => 64,
            Errno::ENOPKG => 65,
            Errno::EREMOTE => 66,
            Errno::ENOLINK => 67,
            Errno::EADV => 68,
            Errno::ESRMNT => 69,
            Errno::ECOMM => 70,
            Errno::EPROTO => 71,
            Errno::EMULTIHOP => 72,
            Errno::EDOTDOT => 73,
            Errno::EBADMSG => 74,
            Errno::EOVERFLOW => 75,
            Errno::ENOTUNIQ => 76,
            Errno::EBADFD => 77,
            Errno::EREMCHG => 78,
            Errno::ELIBACC => 79,
            Errno::ELIBBAD => 80,
            Errno::ELIBSCN => 81,
            Errno::ELIBMAX => 82,
            Errno::ELIBEXEC => 83,
            Errno::EILSEQ => 84,
            Errno::ERESTART => 85,
            Errno::ESTRPIPE => 86,
            Errno::EUSERS => 87,
            Errno::ENOTSOCK => 88,
            Errno::EDESTADDRREQ => 89,
            Errno::EMSGSIZE => 90,
            Errno::EPROTOTYPE => 91,
            Errno::ENOPROTOOPT => 92,
            Errno::EPROTONOSUPPORT => 93,
            Errno::ESOCKTNOSUPPORT => 94,
            Errno::EOPNOTSUPP => 95,
            Errno::EPFNOSUPPORT => 96,
            Errno::EAFNOSUPPORT => 97,
            Errno::EADDRINUSE => 98,
            Errno::EADDRNOTAVAIL => 99,
            Errno::ENETDOWN => 100,
            Errno::ENETUNREACH => 101,
            Errno::ENETRESET => 102,
            Errno::ECONNABORTED => 103,
            Errno::ECONNRESET => 104,
            Errno::ENOBUFS => 105,
            Errno::EISCONN => 106,
            Errno::ENOTCONN => 107,
            Errno::ESHUTDOWN => 108,
            Errno::ETOOMANYREFS => 109,
            Errno::ETIMEDOUT => 110,
            Errno::ECONNREFUSED => 111,
            Errno::EHOSTDOWN => 112,
            Errno::EHOSTUNREACH => 113,
            Errno::EALREADY => 114,
            Errno::EINPROGRESS => 115,
            Errno::ESTALE => 116,
            Errno::EUCLEAN => 117,
            Errno::ENOTNAM => 118,
            Errno::ENAVAIL => 119,
            Errno::EISNAM => 120,
            Errno::EREMOTEIO => 121,
            Errno::EDQUOT => 122,
            Errno::ENOMEDIUM => 123,
            Errno::EMEDIUMTYPE => 124,
            Errno::ECANCELED => 125,
            Errno::ENOKEY => 126,
            Errno::EKEYEXPIRED => 127,
            Errno::EKEYREVOKED => 128,
            Errno::EKEYREJECTED => 129,
            Errno::EOWNERDEAD => 130,
            Errno::ENOTRECOVERABLE => 131,
            Errno::ERFKILL => 132,
            Errno::EHWPOISON => 133,
        }
    }

    /// The error that Linux numbers `n`, or `UnknownErrno` where there is none.
    pub open spec fn of_number(n: int) -> Errno {
        if n == 1 {
            Errno::EPERM
        } else         if n == 2 {
            Errno::ENOENT
        } else         if n == 3 {
            Errno::ESRCH
        } else         if n == 4 {
            Errno::EINTR
        } else         if n == 5 {
            Errno::EIO
        } else         if n == 6 {
            Errno::ENXIO
        } else         if n == 7 {
            Errno::E2BIG
        } else         if n == 8 {
            Errno::ENOEXEC
        } else         if n == 9 {
            Errno::EBADF
        } else         if n == 10 {
            Errno::ECHILD
        } else         if n == 11 {
            Errno::EAGAIN
        } else         if n == 12 {
            Errno::ENOMEM
        } else         if n == 13 {
            Errno::EACCES
        } else         if n == 14 {
            Errno::EFAULT
        } else         if n == 15 {
            Errno::ENOTBLK
        } else         if n == 16 {
            Errno::EBUSY
        } else         if n == 17 {
            Errno::EEXIST
        } else         if n == 18 {
            Errno::EXDEV
        } else         if n == 19 {
            Errno::ENODEV
        } else         if n == 20 {
            Errno::ENOTDIR
        } else         if n == 21 {
            Errno::EISDIR
        } else         if n == 22 {
            Errno::EINVAL
        } else         if n == 23 {
            Errno::ENFILE
        } else         if n == 24 {
            Errno::EMFILE
        } else         if n == 25 {
            Errno::ENOTTY
        } else         if n == 26 {
            Errno::ETXTBSY
        } else         if n == 27 {
            Errno::EFBIG
        } else         if n == 28 {
            Errno::ENOSPC
        } else         if n == 29 {
            Errno::ESPIPE
        } else         if n == 30 {
            Errno::EROFS
        } else         if n == 31 {
            Errno::EMLINK
        } else         if n == 32 {
            Errno::EPIPE
        } else         if n == 33 {
            Errno::EDOM
        } else         if n == 34 {
            Errno::ERANGE
        } else         if n == 35 {
            Errno::EDEADLK
        } else         if n == 36 {
            Errno::ENAMETOOLONG
        } else         if n == 37 {
            Errno::ENOLCK
        } else         if n == 38 {
            Errno::ENOSYS
        } else         if n == 39 {
            Errno::ENOTEMPTY
        } else         if n == 40 {
            Errno::ELOOP
        } else         if n == 42 {
            Errno::ENOMSG
        } else         if n == 43 {
            Errno::EIDRM
        } else         if n == 44 {
            Errno::ECHRNG
        } else         if n == 45 {
            Errno::EL2NSYNC
        } else         if n == 46 {
            Errno::EL3HLT
        } else         if n == 47 {
            Errno::EL3RST
        } else         if n == 48 {
            Errno::ELNRNG
        } else         if n == 49 {
            Errno::EUNATCH
        } else         if n == 50 {
            Errno::ENOCSI
        } else         if n == 51 {
            Errno::EL2HLT
        } else         if n == 52 {
            Errno::EBADE
        } else         if n == 53 {
            Errno::EBADR
        } else         if n == 54 {
            Errno::EXFULL
        } else         if n == 55 {
            Errno::ENOANO
        } else         if n == 56 {
            Errno::EBADRQC
        } else         if n == 57 {
            Errno::EBADSLT
        } else         if n == 59 {
            Errno::EBFONT
        } else         if n == 60 {
            Errno::ENOSTR
        } else         if n == 61 {
            Errno::ENODATA
        } else         if n == 62 {
            Errno::ETIME
        } else         if n == 63 {
            Errno::ENOSR
        } else         if n == 64 {
            Errno::ENONET
        } else         if n == 65 {
            Errno::ENOPKG
        } else         if n == 66 {
            Errno::EREMOTE
        } else         if n == 67 {
            Errno::ENOLINK
        } else         if n == 68 {
            Errno::EADV
        } else         if n == 69 {
            Errno::ESRMNT
        } else         if n == 70 {
            Errno::ECOMM
        } else         if n == 71 {
            Errno::EPROTO
        } else         if n == 72 {
            Errno::EMULTIHOP
        } else         if n == 73 {
            Errno::EDOTDOT
        } else         if n == 74 {
            Errno::EBADMSG
        } else         if n == 75 {
            Errno::EOVERFLOW
        } else         if n == 76 {
            Errno::ENOTUNIQ
        } else         if n == 77 {
            Errno::EBADFD
        } else         if n == 78 {
            Errno::EREMCHG
        } else         if n == 79 {
            Errno::ELIBACC
        } else         if n == 80 {
            Errno::ELIBBAD
        } else         if n == 81 {
            Errno::ELIBSCN
        } else         if n == 82 {
            Errno::ELIBMAX
        } else         if n == 83 {
            Errno::ELIBEXEC
        } else         if n == 84 {
            Errno::EILSEQ
        } else         if n == 85 {
            Errno::ERESTART
        } else         if n == 86 {
            Errno::ESTRPIPE
        } else         if n == 87 {
            Errno::EUSERS
        } else         if n == 88 {
            Errno::ENOTSOCK
        } else         if n == 89 {
            Errno::EDESTADDRREQ
        } else         if n == 90 {
            Errno::EMSGSIZE
        } else         if n == 91 {
            Errno::EPROTOTYPE
        } else         if n == 92 {
            Errno::ENOPROTOOPT
        } else         if n == 93 {
            Errno::EPROTONOSUPPORT
        } else         if n == 94 {
            Errno::ESOCKTNOSUPPORT
        } else         if n == 95 {
            Errno::EOPNOTSUPP
        } else         if n == 96 {
            Errno::EPFNOSUPPORT
        } else         if n == 97 {
            Errno::EAFNOSUPPORT
        } else         if n == 98 {
            Errno::EADDRINUSE
        } else         if n == 99 {
            Errno::EADDRNOTAVAIL
        } else         if n == 100 {
            Errno::ENETDOWN
        } else         if n == 101 {
            Errno::ENETUNREACH
        } else         if n == 102 {
            Errno::ENETRESET
        } else         if n == 103 {
            Errno::ECONNABORTED
        } else         if n == 104 {
            Errno::ECONNRESET
        } else         if n == 105 {
            Errno::ENOBUFS
        } else         if n == 106 {
            Errno::EISCONN
        } else         if n == 107 {
            Errno::ENOTCONN
        } else         if n == 108 {
            Errno::ESHUTDOWN
        } else         if n == 109 {
            Errno::ETOOMANYREFS
        } else         if n == 110 {
            Errno::ETIMEDOUT
        } else         if n == 111 {
            Errno::ECONNREFUSED
        } else         if n == 112 {
            Errno::EHOSTDOWN
        } else         if n == 113 {
            Errno::EHOSTUNREACH
        } else         if n == 114 {
            Errno::EALREADY
        } else         if n == 115 {
            Errno::EINPROGRESS
        } else         if n == 116 {
            Errno::ESTALE
        } else         if n == 117 {
            Errno::EUCLEAN
        } else         if n == 118 {
            Errno::ENOTNAM
        } else         if n == 119 {
            Errno::ENAVAIL
        } else         if n == 120 {
            Errno::EISNAM
        } else         if n == 121 {
            Errno::EREMOTEIO
        } else         if n == 122 {
            Errno::EDQUOT
        } else         if n == 123 {
            Errno::ENOMEDIUM
        } else         if n == 124 {
            Errno::EMEDIUMTYPE
        } else         if n == 125 {
            Errno::ECANCELED
        } else         if n == 126 {
            Errno::ENOKEY
        } else         if n == 127 {
            Errno::EKEYEXPIRED
        } else         if n == 128 {
            Errno::EKEYREVOKED
        } else         if n == 129 {
            Errno::EKEYREJECTED
        } else         if n == 130 {
            Errno::EOWNERDEAD
        } else         if n == 131 {
            Errno::ENOTRECOVERABLE
        } else         if n == 132 {
            Errno::ERFKILL
        } else         if n == 133 {
            Errno::EHWPOISON
        } else {
            Errno::UnknownErrno
        }
    }

    /// The wire value of this error, as carried by `Rlerror`.
    pub fn code(self) -> (n: u32)
        ensures
            n == self.number(),
    {
        match self {
            Errno::UnknownErrno => 0,
            Errno::EPERM => 1,
            Errno::ENOENT => 2,
            Errno::ESRCH => 3,
            Errno::EINTR => 4,
            Errno::EIO => 5,
            Errno::ENXIO => 6,
            Errno::E2BIG => 7,
            Errno::ENOEXEC => 8,
            Errno::EBADF => 9,
            Errno::ECHILD => 10,
            Errno::EAGAIN => 11,
            Errno::ENOMEM => 12,
            Errno::EACCES => 13,
            Errno::EFAULT => 14,
            Errno::ENOTBLK => 15,
            Errno::EBUSY => 16,
            Errno::EEXIST => 17,
            Errno::EXDEV => 18,
            Errno::ENODEV => 19,
            Errno::ENOTDIR => 20,
            Errno::EISDIR => 21,
            Errno::EINVAL => 22,
            Errno::ENFILE => 23,
            Errno::EMFILE => 24,
            Errno::ENOTTY => 25,
            Errno::ETXTBSY => 26,
            Errno::EFBIG => 27,
            Errno::ENOSPC => 28,
            Errno::ESPIPE => 29,
            Errno::EROFS => 30,
            Errno::EMLINK => 31,
            Errno::EPIPE => 32,
            Errno::EDOM => 33,
            Errno::ERANGE => 34,
            Errno::EDEADLK => 35,
            Errno::ENAMETOOLONG => 36,
            Errno::ENOLCK => 37,
            Errno::ENOSYS => 38,
            Errno::ENOTEMPTY => 39,
            Errno::ELOOP => 40,
            Errno::ENOMSG => 42,
            Errno::EIDRM => 43,
            Errno::ECHRNG => 44,
            Errno::EL2NSYNC => 45,
            Errno::EL3HLT => 46,
            Errno::EL3RST => 47,
            Errno::ELNRNG => 48,
            Errno::EUNATCH => 49,
            Errno::ENOCSI => 50,
            Errno::EL2HLT => 51,
            Errno::EBADE => 52,
            Errno::EBADR => 53,
            Errno::EXFULL => 54,
            Errno::ENOANO => 55,
            Errno::EBADRQC => 56,
            Errno::EBADSLT => 57,
            Errno::EBFONT => 59,
            Errno::ENOSTR => 60,
            Errno::ENODATA => 61,
            Errno::ETIME => 62,
            Errno::ENOSR => 63,
            Errno::ENONET => 64,
            Errno::ENOPKG => 65,
            Errno::EREMOTE => 66,
            Errno::ENOLINK => 67,
            Errno::EADV => 68,
            Errno::ESRMNT => 69,
            Errno::ECOMM => 70,
            Errno::EPROTO => 71,
            Errno::EMULTIHOP => 72,
            Errno::EDOTDOT => 73,
            Errno::EBADMSG => 74,
            Errno::EOVERFLOW => 75,
            Errno::ENOTUNIQ => 76,
            Errno::EBADFD => 77,
            Errno::EREMCHG => 78,
            Errno::ELIBACC => 79,
            Errno::ELIBBAD => 80,
            Errno::ELIBSCN => 81,
            Errno::ELIBMAX => 82,
            Errno::ELIBEXEC => 83,
            Errno::EILSEQ => 84,
            Errno::ERESTART => 85,
            Errno::ESTRPIPE => 86,
            Errno::EUSERS => 87,
            Errno::ENOTSOCK => 88,
            Errno::EDESTADDRREQ => 89,
            Errno::EMSGSIZE => 90,
            Errno::EPROTOTYPE => 91,
            Errno::ENOPROTOOPT => 92,
            Errno::EPROTONOSUPPORT => 93,
            Errno::ESOCKTNOSUPPORT => 94,
            Errno::EOPNOTSUPP => 95,
            Errno::EPFNOSUPPORT => 96,
            Errno::EAFNOSUPPORT => 97,
            Errno::EADDRINUSE => 98,
            Errno::EADDRNOTAVAIL => 99,
            Errno::ENETDOWN => 100,
            Errno::ENETUNREACH => 101,
            Errno::ENETRESET => 102,
            Errno::ECONNABORTED => 103,
            Errno::ECONNRESET => 104,
            Errno::ENOBUFS => 105,
            Errno::EISCONN => 106,
            Errno::ENOTCONN => 107,
            Errno::ESHUTDOWN => 108,
            Errno::ETOOMANYREFS => 109,
            Errno::ETIMEDOUT => 110,
            Errno::ECONNREFUSED => 111,
            Errno::EHOSTDOWN => 112,
            Errno::EHOSTUNREACH => 113,
            Errno::EALREADY => 114,
            Errno::EINPROGRESS => 115,
            Errno::ESTALE => 116,
            Errno::EUCLEAN => 117,
            Errno::ENOTNAM => 118,
            Errno::ENAVAIL => 119,
            Errno::EISNAM => 120,
            Errno::EREMOTEIO => 121,
            Errno::EDQUOT => 122,
            Errno::ENOMEDIUM => 123,
            Errno::EMEDIUMTYPE => 124,
            Errno::ECANCELED => 125,
            Errno::ENOKEY => 126,
            Errno::EKEYEXPIRED => 127,
            Errno::EKEYREVOKED => 128,
            Errno::EKEYREJECTED => 129,
            Errno::EOWNERDEAD => 130,
            Errno::ENOTRECOVERABLE => 131,
            Errno::ERFKILL => 132,
            Errno::EHWPOISON => 133,
        }
    }

    /// The error numbered `raw`; numbers that name no error give `UnknownErrno`.
    pub fn from_raw(raw: i32) -> (e: Errno)
        ensures
            e == Errno::of_number(raw as int),
    {
        match raw {
            1 => Errno::EPERM,
            2 => Errno::ENOENT,
            3 => Errno::ESRCH,
            4 => Errno::EINTR,
            5 => Errno::EIO,
            6 => Errno::ENXIO,
            7 => Errno::E2BIG,
            8 => Errno::ENOEXEC,
            9 => Errno::EBADF,
            10 => Errno::ECHILD,
            11 => Errno::EAGAIN,
            12 => Errno::ENOMEM,
            13 => Errno::EACCES,
            14 => Errno::EFAULT,
            15 => Errno::ENOTBLK,
            16 => Errno::EBUSY,
            17 => Errno::EEXIST,
            18 => Errno::EXDEV,
            19 => Errno::ENODEV,
            20 => Errno::ENOTDIR,
            21 => Errno::EISDIR,
            22 => Errno::EINVAL,
            23 => Errno::ENFILE,
            24 => Errno::EMFILE,
            25 => Errno::ENOTTY,
            26 => Errno::ETXTBSY,
            27 => Errno::EFBIG,
            28 => Errno::ENOSPC,
            29 => Errno::ESPIPE,
            30 => Errno::EROFS,
            31 => Errno::EMLINK,
            32 => Errno::EPIPE,
            33 => Errno::EDOM,
            34 => Errno::ERANGE,
            35 => Errno::EDEADLK,
            36 => Errno::ENAMETOOLONG,
            37 => Errno::ENOLCK,
            38 => Errno::ENOSYS,
            39 => Errno::ENOTEMPTY,
            40 => Errno::ELOOP,
            42 => Errno::ENOMSG,
            43 => Errno::EIDRM,
            44 => Errno::ECHRNG,
            45 => Errno::EL2NSYNC,
            46 => Errno::EL3HLT,
            47 => Errno::EL3RST,
            48 => Errno::ELNRNG,
            49 => Errno::EUNATCH,
            50 => Errno::ENOCSI,
            51 => Errno::EL2HLT,
            52 => Errno::EBADE,
            53 => Errno::EBADR,
            54 => Errno::EXFULL,
            55 => Errno::ENOANO,
            56 => Errno::EBADRQC,
            57 => Errno::EBADSLT,
            59 => Errno::EBFONT,
            60 => Errno::ENOSTR,
            61 => Errno::ENODATA,
            62 => Errno::ETIME,
            63 => Errno::ENOSR,
            64 => Errno::ENONET,
            65 => Errno::ENOPKG,
            66 => Errno::EREMOTE,
            67 => Errno::ENOLINK,
            68 => Errno::EADV,
            69 => Errno::ESRMNT,
            70 => Errno::ECOMM,
            71 => Errno::EPROTO,
            72 => Errno::EMULTIHOP,
            73 => Errno::EDOTDOT,
            74 => Errno::EBADMSG,
            75 => Errno::EOVERFLOW,
            76 => Errno::ENOTUNIQ,
            77 => Errno::EBADFD,
            78 => Errno::EREMCHG,
            79 => Errno::ELIBACC,
            80 => Errno::ELIBBAD,
            81 => Errno::ELIBSCN,
            82 => Errno::ELIBMAX,
            83 => Errno::ELIBEXEC,
            84 => Errno::EILSEQ,
            85 => Errno::ERESTART,
            86 => Errno::ESTRPIPE,
            87 => Errno::EUSERS,
            88 => Errno::ENOTSOCK,
            89 => Errno::EDESTADDRREQ,
            90 => Errno::EMSGSIZE,
            91 => Errno::EPROTOTYPE,
            92 => Errno::ENOPROTOOPT,
            93 => Errno::EPROTONOSUPPORT,
            94 => Errno::ESOCKTNOSUPPORT,
            95 => Errno::EOPNOTSUPP,
            96 => Errno::EPFNOSUPPORT,
            97 => Errno::EAFNOSUPPORT,
            98 => Errno::EADDRINUSE,
            99 => Errno::EADDRNOTAVAIL,
            100 => Errno::ENETDOWN,
            101 => Errno::ENETUNREACH,
            102 => Errno::ENETRESET,
            103 => Errno::ECONNABORTED,
            104 => Errno::ECONNRESET,
            105 => Errno::ENOBUFS,
            106 => Errno::EISCONN,
            107 => Errno::ENOTCONN,
            108 => Errno::ESHUTDOWN,
            109 => Errno::ETOOMANYREFS,
            110 => Errno::ETIMEDOUT,
            111 => Errno::ECONNREFUSED,
            112 => Errno::EHOSTDOWN,
            113 => Errno::EHOSTUNREACH,
            114 => Errno::EALREADY,
            115 => Errno::EINPROGRESS,
            116 => Errno::ESTALE,
            117 => Errno::EUCLEAN,
            118 => Errno::ENOTNAM,
            119 => Errno::ENAVAIL,
            120 => Errno::EISNAM,
            121 => Errno::EREMOTEIO,
            122 => Errno::EDQUOT,
            123 => Errno::ENOMEDIUM,
            124 => Errno::EMEDIUMTYPE,
            125 => Errno::ECANCELED,
            126 => Errno::ENOKEY,
            127 => Errno::EKEYEXPIRED,
            128 => Errno::EKEYREVOKED,
            129 => Errno::EKEYREJECTED,
            130 => Errno::EOWNERDEAD,
            131 => Errno::ENOTRECOVERABLE,
            132 => Errno::ERFKILL,
            133 => Errno::EHWPOISON,
            _ => Errno::UnknownErrno,
        }
    }
}

/// Every error is found again from its number.
pub proof fn lemma_errno_of_number_inverse(e: Errno)
    ensures
        Errno::of_number(e.number()) == e,
{
}

/// A number maps to the error that carries it, and to `UnknownErrno` only
/// where no error carries it.
pub proof fn lemma_errno_of_number_exact(n: int)
    ensures
        Errno::of_number(n).number() == n || Errno::of_number(n) == Errno::UnknownErrno,
        Errno::of_number(n) == Errno::UnknownErrno ==> forall|e: Errno|
            e != Errno::UnknownErrno ==> #[trigger] e.number() != n,
{
    if Errno::of_number(n) == Errno::UnknownErrno {
        assert forall|e: Errno| e != Errno::UnknownErrno implies #[trigger] e.number() != n by {
            lemma_errno_of_number_inverse(e);
        }
    }
}

/// The kinds of host I/O error that the protocol tells apart.
///
/// `Other` stands for every kind not listed here.
#[derive(Clone, Copy, Debug, PartialEq, Eq, Structural)]
pub enum IoErrorKind {
    NotFound,
    PermissionDenied,
    ConnectionRefused,
    ConnectionReset,
    ConnectionAborted,
    NotConnected,
    AddrInUse,
    AddrNotAvailable,
    BrokenPipe,
    AlreadyExists,
    WouldBlock,
    InvalidInput,
    InvalidData,
    TimedOut,
    WriteZero,
    Interrupted,
    UnexpectedEof,
    Other,
}

/// What the protocol reads of a host I/O error: its kind, and the raw
/// error number of the operating system where it carries one.
#[derive(Clone, Copy, Debug, PartialEq, Eq, Structural)]
pub struct IoError {
    pub kind: IoErrorKind,
    pub raw_os_error: Option<i32>,
}

impl IoError {
    /// An error of the given kind that carries no raw error number.
    pub fn new(kind: IoErrorKind) -> (e: IoError)
        ensures
            e == (IoError { kind, raw_os_error: None }),
    {
        IoError { kind, raw_os_error: None }
    }

    /// An error that the operating system reported under number `raw`.
    pub fn from_raw_os_error(raw: i32) -> (e: IoError)
        ensures
            e == (IoError { kind: IoErrorKind::Other, raw_os_error: Some(raw) }),
    {
        IoError { kind: IoErrorKind::Other, raw_os_error: Some(raw) }
    }
}

/// The error number that stands for a kind of I/O error.
pub open spec fn errno_of_kind(kind: IoErrorKind) -> Errno {
    match kind {
        IoErrorKind::NotFound => Errno::ENOENT,
        IoErrorKind::PermissionDenied => Errno::EPERM,
        IoErrorKind::ConnectionRefused => Errno::ECONNREFUSED,
        IoErrorKind::ConnectionReset => Errno::ECONNRESET,
        IoErrorKind::ConnectionAborted => Errno::ECONNABORTED,
        IoErrorKind::NotConnected => Errno::ENOTCONN,
        IoErrorKind::AddrInUse => Errno::EADDRINUSE,
        IoErrorKind::AddrNotAvailable => Errno::EADDRNOTAVAIL,
        IoErrorKind::BrokenPipe => Errno::EPIPE,
        IoErrorKind::AlreadyExists => Errno::EALREADY,
        IoErrorKind::WouldBlock => Errno::EAGAIN,
        IoErrorKind::InvalidInput => Errno::EINVAL,
        IoErrorKind::InvalidData => Errno::EINVAL,
        IoErrorKind::TimedOut => Errno::ETIMEDOUT,
        IoErrorKind::WriteZero => Errno::EAGAIN,
        IoErrorKind::Interrupted => Errno::EINTR,
        IoErrorKind::UnexpectedEof => Errno::EIO,
        IoErrorKind::Other => Errno::EIO,
    }
}

/// The error number of an I/O error: the raw number where the error carries
/// one, else the number that stands for its kind.
pub open spec fn errno_of_ioerror(e: IoError) -> Errno {
    match e.raw_os_error {
        Some(raw) => Errno::of_number(raw as int),
        None => errno_of_kind(e.kind),
    }
}

/// Maps an I/O error to its error number.
pub fn errno_from_ioerror(e: &IoError) -> (r: Errno)
    ensures
        r == errno_of_ioerror(*e),
{
    match e.raw_os_error {
        Some(raw) => Errno::from_raw(raw),
        None => match e.kind {
            IoErrorKind::NotFound => Errno::ENOENT,
            IoErrorKind::PermissionDenied => Errno::EPERM,
            IoErrorKind::ConnectionRefused => Errno::ECONNREFUSED,
            IoErrorKind::ConnectionReset => Errno::ECONNRESET,
            IoErrorKind::ConnectionAborted => Errno::ECONNABORTED,
            IoErrorKind::NotConnected => Errno::ENOTCONN,
            IoErrorKind::AddrInUse => Errno::EADDRINUSE,
            IoErrorKind::AddrNotAvailable => Errno::EADDRNOTAVAIL,
            IoErrorKind::BrokenPipe => Errno::EPIPE,
            IoErrorKind::AlreadyExists => Errno::EALREADY,
            IoErrorKind::WouldBlock => Errno::EAGAIN,
            IoErrorKind::InvalidInput => Errno::EINVAL,
            IoErrorKind::InvalidData => Errno::EINVAL,
            IoErrorKind::TimedOut => Errno::ETIMEDOUT,
            IoErrorKind::WriteZero => Errno::EAGAIN,
            IoErrorKind::Interrupted => Errno::EINTR,
            IoErrorKind::UnexpectedEof => Errno::EIO,
            IoErrorKind::Other => Errno::EIO,
        },
    }
}

/// 9P error type which is convertible to an error number.
///
/// The value of `Error::errno()` is what `Rlerror` carries.
#[derive(Clone, Copy, Debug, PartialEq, Eq, Structural)]
pub enum Error {
    /// System error containing an error number.
    No(Errno),
    /// I/O error.
    Io(IoError),
}

impl Error {
    /// The error number that this error stands for.
    pub open spec fn spec_errno(self) -> Errno {
        match self {
            Error::No(e) => e,
            Error::Io(e) => errno_of_ioerror(e),
        }
    }

    /// Get the error number of this error.
    pub fn errno(&self) -> (r: Errno)
        ensures
            r == self.spec_errno(),
    {
        match self {
            Error::No(e) => *e,
            Error::Io(e) => errno_from_ioerror(e),
        }
    }
}

impl From<IoError> for Error {
    fn from(e: IoError) -> (r: Error) {
        Error::Io(e)
    }
}

impl FromSpecImpl<IoError> for Error {
    open spec fn obeys_from_spec() -> bool {
        true
    }

    open spec fn from_spec(e: IoError) -> Error {
        Error::Io(e)
    }
}

impl From<Errno> for Error {
    fn from(e: Errno) -> (r: Error) {
        Error::No(e)
    }
}

impl FromSpecImpl<Errno> for Error {
    open spec fn obeys_from_spec() -> bool {
        true
    }

    open spec fn from_spec(e: Errno) -> Error {
        Error::No(e)
    }
}

} // verus!
