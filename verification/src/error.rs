//! Status codes of the bus authority, and the error that the library makes of them.
//!
//! The authority reports success as zero and failure as a negative number.

use vstd::prelude::*;

verus! {

/// The status that stands for an invalid argument.
pub const EINVAL: i32 = -22;

/// A failure, held as the negative status code that the bus authority uses for it.
#[derive(Clone, Copy, Debug)]
pub struct Error {
    errno: i32,
}

impl Error {
    #[verifier::type_invariant]
    spec fn negative(self) -> bool {
        self.errno < 0
    }

    /// The status code of this error.
    pub closed spec fn code(self) -> int {
        self.errno as int
    }

    /// The code that an error made of `errno` holds: `errno` itself where it is negative,
    /// `EINVAL` for a number that names no failure.
    pub open spec fn code_of(errno: i32) -> int {
        if errno < 0 {
            errno as int
        } else {
            EINVAL as int
        }
    }

    /// Makes an error of a status code. A code that is not negative names no failure and
    /// becomes `EINVAL`.
    pub fn from_errno(errno: i32) -> (e: Error)
        ensures
            e.code() == Self::code_of(errno),
    {
        if errno < 0 {
            Error { errno }
        } else {
            Error { errno: EINVAL }
        }
    }

    /// The status code to hand to the bus authority: always negative.
    pub fn to_errno(&self) -> (r: i32)
        ensures
            r == self.code(),
            r < 0,
    {
        proof {
            use_type_invariant(self);
        }
        self.errno
    }
}

/// What a status code of the bus authority means: a negative one is a failure with that
/// code, any other is success.
pub open spec fn status_failed(status: i32) -> bool {
    status < 0
}

/// Turns a status code of the bus authority into a `Result`.
pub fn to_result(status: i32) -> (r: Result<(), Error>)
    ensures
        status_failed(status) <==> r is Err,
        r matches Err(e) ==> e.code() == status,
{
    if status < 0 {
        Err(Error::from_errno(status))
    } else {
        Ok(())
    }
}

} // verus!
