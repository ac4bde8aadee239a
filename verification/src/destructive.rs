use crate::error::{Error, Result};
use vstd::prelude::*;

verus! {

/// Maximum number of items allowed in a bulk operation without the
/// `destructive-bulk-trash` gate.
pub const BULK_TRASH_THRESHOLD: usize = 50;

/// Check whether a bulk trash operation is allowed: it is refused with
/// `Error::BulkTrashDenied` exactly when `count` exceeds the threshold.
pub fn check_bulk_trash(count: usize) -> (r: Result<()>)
    ensures
        r is Ok <==> count <= BULK_TRASH_THRESHOLD,
        r matches Err(e) ==> e == (Error::BulkTrashDenied { count }),
{
    if count > BULK_TRASH_THRESHOLD {
        return Err(Error::BulkTrashDenied { count });
    }
    Ok(())
}

/// Marker trait for types that represent permanently destructive operations.
pub trait PermanentlyDestructive {}

} // verus!
