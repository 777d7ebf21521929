//! What the database says about a chat.

use vstd::prelude::*;

verus! {

/// Whether a chat's season runs, from its `is_active` column: a chat whose
/// column is empty has no running season.
pub fn get_active_chat_status(is_active: Option<bool>) -> (r: bool)
    ensures
        r == (is_active == Some(true)),
{
    match is_active {
        Some(b) => b,
        None => false,
    }
}

} // verus!
