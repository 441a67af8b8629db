//! The unified error model: name validation failures and OS failures.

use vstd::prelude::*;

verus! {

/// Every fallible operation of this library reports one of these.
#[derive(Debug, Clone, Copy, PartialEq, Eq, Structural, Hash)]
pub enum Error {
    /// The requested interface name is empty, 16 bytes or longer, or holds a
    /// byte that is not ASCII alphanumeric. Raised before any OS resource is
    /// touched.
    InvalidName,
    /// An OS call failed; the payload is the originating OS error code.
    Os(i32),
}

/// Relies on std::io::Error::last_os_error, which reads the error code the
/// most recent OS call left for this thread. The code depends on the
/// environment, so nothing is promised of its value.
#[verifier::external_body]
fn last_os_error_code() -> (r: i32) {
    std::io::Error::last_os_error().raw_os_error().unwrap_or(0)
}

impl Error {
    /// The error left behind by the most recent failing OS call.
    pub fn last() -> (r: Self)
        ensures
            r is Os,
    {
        Error::Os(last_os_error_code())
    }
}

/// Interprets a raw transfer syscall return value: a negative value is a
/// failure carrying the accompanying OS error code, anything else is the
/// count of transferred bytes.
pub fn io_result(ret: isize, errno: i32) -> (r: Result<usize, Error>)
    ensures
        r == if ret < 0 {
            Err::<usize, Error>(Error::Os(errno))
        } else {
            Ok::<usize, Error>(ret as usize)
        },
{
    if ret < 0 {
        Err(Error::Os(errno))
    } else {
        Ok(ret as usize)
    }
}

} // verus!
