//! The identity extractor's decisions: how the identity service's answer is
//! read, and when its call is made again with a larger buffer.

use vstd::prelude::*;
use vstd::slice::slice_subrange;
use crate::error::ClrError;
use crate::wide::{decode_wide, utf16_lossy};

verus! {

/// Capacity, in code units, of the first buffer handed to the identity service.
pub const IDENTITY_CAPACITY: u32 = 2048;

/// Status the identity service gives when the buffer is too small; it then
/// reports the size it needs.
pub const E_INSUFFICIENT_BUFFER: i32 = -2147024774;

/// What to do after a call of the identity service.
#[derive(Debug, Clone, PartialEq)]
pub enum IdentityStep {
    /// The buffer holds the identity: read it.
    Read,
    /// Call once more with a buffer of this many code units.
    Grow(u32),
    /// Give up with this error.
    Fail(ClrError),
}

/// The step after a call made with a buffer of `capacity` units that
/// answered `status` and reported `needed` units; `grown` tells whether the
/// buffer was already enlarged once.
pub open spec fn identity_step_spec(status: i32, needed: u32, capacity: u32, grown: bool) -> IdentityStep {
    if status == 0 {
        IdentityStep::Read
    } else if status == E_INSUFFICIENT_BUFFER && !grown && needed > capacity {
        IdentityStep::Grow(needed)
    } else {
        IdentityStep::Fail(ClrError::ApiError("GetBindingIdentityFromStream", status))
    }
}

/// Decides what follows a call of the identity service: read on success, one
/// retry with the reported size when the buffer was too small, else fail
/// with the call's status.
pub fn identity_step(status: i32, needed: u32, capacity: u32, grown: bool) -> (r: IdentityStep)
    ensures
        r == identity_step_spec(status, needed, capacity, grown),
{
    if status == 0 {
        IdentityStep::Read
    } else if status == E_INSUFFICIENT_BUFFER && !grown && needed > capacity {
        IdentityStep::Grow(needed)
    } else {
        IdentityStep::Fail(ClrError::ApiError("GetBindingIdentityFromStream", status))
    }
}

/// Reads the identity from the service's buffer, where `size` counts the
/// code units written, the terminating zero included. A size that is zero or
/// beyond the buffer is refused.
pub fn identity_from_buffer(buffer: &[u16], size: u32) -> (r: Result<String, ClrError>)
    ensures
        1 <= size <= buffer@.len() ==> (r matches Ok(s) && s@ == utf16_lossy(
            buffer@.subrange(0, size - 1),
        )),
        !(1 <= size <= buffer@.len()) ==> r == Err::<String, ClrError>(
            ClrError::GenericError("identity size out of range"),
        ),
{
    if size == 0 || size as usize > buffer.len() {
        return Err(ClrError::GenericError("identity size out of range"));
    }
    let text = slice_subrange(buffer, 0, (size - 1) as usize);
    Ok(decode_wide(text))
}

} // verus!
