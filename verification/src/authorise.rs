//! Permission checks for client actions.
use vstd::prelude::*;

use crate::datatypes::ClientAction;

verus! {

/// Whether the holder of `token` may take every one of `actions`. No
/// permission is granted yet: the answer is always `Ok(false)`.
pub fn check_permissions(token: Vec<u8>, actions: Vec<ClientAction>) -> (allowed: Result<bool, ()>)
    ensures
        allowed == Ok::<bool, ()>(false),
{
    Ok(false)
}

} // verus!
