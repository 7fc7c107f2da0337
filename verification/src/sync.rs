//! The filesystem sync facility.
//!
//! Syncing is a two-phase boundary operation: the first call requests an
//! asynchronous commit and yields a transaction identifier, the second blocks
//! until that transaction is durably committed. The decision layer here
//! validates the path and folds the two reported status codes into one
//! result; the second phase is never attempted when the first failed.

use vstd::prelude::*;

use crate::common;
use crate::error::check_code_spec;
use crate::error::code_err;
use crate::error::BtrfsUtilError;
use crate::error::GlueError;

verus! {

/// Settle the outcome of syncing a filesystem at `path`.
///
/// `start_code` is the status the boundary reported for requesting the
/// asynchronous commit; `wait_code` is the status reported for waiting on the
/// obtained transaction, present exactly when the request phase succeeded
/// (on failure the wait is never attempted).
pub fn sync(path: &Vec<u8>, start_code: u32, wait_code: Option<u32>) -> (r: Result<
    (),
    BtrfsUtilError,
>)
    requires
        (!common::has_nul(path@) && start_code == 0) ==> wait_code is Some,
    ensures
        common::has_nul(path@) ==> r == Err::<(), BtrfsUtilError>(BtrfsUtilError::Glue(
            GlueError::NulError,
        )),
        !common::has_nul(path@) && start_code != 0 ==> r == Err::<(), BtrfsUtilError>(code_err(
            start_code,
        )),
        !common::has_nul(path@) && start_code == 0 ==> r == check_code_spec(
            wait_code->Some_0,
        ),
{
    if let Err(e) = common::path_to_cstr(path) {
        return Err(e);
    }
    if let Err(e) = crate::error::check_code(start_code) {
        return Err(e);
    }
    match wait_code {
        Some(c) => crate::error::check_code(c),
        // The wait phase is always attempted once the request phase
        // succeeded, so its status is present here.
        None => vstd::pervasive::unreached(),
    }
}

} // verus!
