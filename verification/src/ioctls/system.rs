//! The device handle and the outcome of every call made through it.

use vstd::prelude::*;

verus! {

use crate::ioctls::OsError;
use crate::crypto_ioctls::SessionOp;

/// A handle to one cryptodev character device, wrapping exactly one open
/// file descriptor. The handle never re-opens or swaps the descriptor.
#[derive(Clone, Copy, Debug, PartialEq, Eq, Structural)]
pub struct Crypto {
    /// The raw file descriptor of the open device node.
    pub fd: i32,
}

/// The handle that adopting descriptor `fd` constructs.
pub open spec fn adopted(fd: i32) -> Crypto {
    Crypto { fd }
}

/// The caller-visible outcome of an attempt to open the device: a negative
/// return from `open` is the captured OS error, a nonnegative return is a
/// handle owning that very descriptor.
pub open spec fn open_outcome(ret: i32, err: i32) -> Result<Crypto, OsError> {
    if ret < 0 {
        Err(OsError { errno: err })
    } else {
        Ok(adopted(ret))
    }
}

/// The caller-visible outcome of one ioctl call, uniform over session
/// creation, session teardown and crypto submission: a negative return is
/// the captured OS error, anything else is plain success.
pub open spec fn ioctl_outcome(ret: i32, err: i32) -> Result<(), OsError> {
    if ret < 0 {
        Err(OsError { errno: err })
    } else {
        Ok(())
    }
}

impl Crypto {
    /// A descriptor is usable only if it is nonnegative.
    pub open spec fn valid(&self) -> bool {
        0 <= self.fd
    }

    /// Adopts an already-open descriptor without inspecting the device
    /// behind it. The caller vouches that `fd` is an open descriptor of a
    /// cryptodev device node; a descriptor of the wrong device surfaces
    /// later as kernel-reported ioctl errors, never as a local check.
    pub fn new_with_fd_number(fd: i32) -> (r: Crypto)
        requires
            0 <= fd,
        ensures
            r == adopted(fd),
            r.valid(),
    {
        Crypto { fd }
    }

    /// Turns the return value of the `open` call on the device node, and
    /// the OS error code captured right after it, into the handle or the
    /// error that the caller sees.
    pub fn from_open_result(ret: i32, err: i32) -> (r: Result<Crypto, OsError>)
        ensures
            r == open_outcome(ret, err),
            r matches Ok(h) ==> h.valid(),
    {
        if ret < 0 {
            Err(OsError { errno: err })
        } else {
            Ok(Crypto { fd: ret })
        }
    }

    /// Exposes the underlying descriptor for composition with lower-level
    /// calls not wrapped here.
    pub fn as_raw_fd(&self) -> (r: i32)
        ensures
            r == self.fd,
    {
        self.fd
    }

    /// Settles the session-creation call from what the kernel handed back:
    /// the ioctl's return value, the OS error code captured right after
    /// it, and the session id the driver wrote into its reply. On success
    /// the configuration carries the assigned id and nothing else of it
    /// changes; on failure it is left exactly as the caller filled it and
    /// the captured error is returned. The outcome never depends on which
    /// descriptor the handle wraps.
    pub fn create_session(&self, cfg: &mut SessionOp, ret: i32, err: i32, ses: u32) -> (r:
        Result<(), OsError>)
        ensures
            r == ioctl_outcome(ret, err),
            ret >= 0 ==> *final(cfg) == (SessionOp { ses, ..*old(cfg) }),
            ret < 0 ==> *final(cfg) == *old(cfg),
    {
        if ret < 0 {
            Err(OsError { errno: err })
        } else {
            cfg.ses = ses;
            Ok(())
        }
    }

    /// Settles the session-teardown call from the ioctl's return value and
    /// the OS error code captured right after it. The session id was
    /// passed to the kernel by value, so nothing of the caller's changes
    /// either way; the kernel alone decides whether the id was still open.
    pub fn close_session(&self, ret: i32, err: i32) -> (r: Result<(), OsError>)
        ensures
            r == ioctl_outcome(ret, err),
    {
        if ret < 0 {
            Err(OsError { errno: err })
        } else {
            Ok(())
        }
    }

    /// Settles a submitted crypto operation from the ioctl's return value
    /// and the OS error code captured right after it. The operation's
    /// results travel through the buffers the descriptor points at, so
    /// success carries no payload of its own.
    pub fn crypto_op(&self, ret: i32, err: i32) -> (r: Result<(), OsError>)
        ensures
            r == ioctl_outcome(ret, err),
    {
        if ret < 0 {
            Err(OsError { errno: err })
        } else {
            Ok(())
        }
    }
}

/// A failed call never hands anything usable out: whenever `open` or an
/// ioctl returns a negative value, the outcome is exactly the captured OS
/// error — no handle comes out of a failed open, and no success comes out
/// of a failed session creation, teardown or crypto submission.
pub proof fn lemma_failed_call_is_os_error(ret: i32, err: i32)
    requires
        ret < 0,
    ensures
        open_outcome(ret, err) == Err::<Crypto, OsError>(OsError { errno: err }),
        ioctl_outcome(ret, err) == Err::<(), OsError>(OsError { errno: err }),
{
}

/// A nonnegative return is always plain success: an open yields the handle
/// owning that very descriptor, and an ioctl yields success with no
/// payload. In particular, when the kernel accepts a session-creation and
/// a following teardown, both calls are reported to the caller as `Ok`.
pub proof fn lemma_completed_call_is_success(ret: i32, err: i32)
    requires
        0 <= ret,
    ensures
        open_outcome(ret, err) == Ok::<Crypto, OsError>(Crypto { fd: ret }),
        ioctl_outcome(ret, err) == Ok::<(), OsError>(()),
{
}

/// Opening and adopting agree: a successful open that produced descriptor
/// `ret` yields exactly the handle that adopting `ret` constructs. Every
/// operation's outcome is a function of the kernel's return value and the
/// captured error code alone, so the two handles behave identically.
pub proof fn lemma_open_and_adopt_agree(ret: i32, err: i32)
    requires
        0 <= ret,
    ensures
        open_outcome(ret, err) == Ok::<Crypto, OsError>(adopted(ret)),
        open_outcome(ret, err)->Ok_0.valid(),
{
}

} // verus!
