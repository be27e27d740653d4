//! The shapes of the files and messages that the launcher reads and writes.

use vstd::prelude::*;

pub mod auxiliary;
pub mod forge_mod;
pub mod instance;
pub mod loader;
pub mod modrinth;

verus! {

/// Whether an optional field is absent and need not be written out.
pub fn skip_if_none<T>(value: &Option<T>) -> (r: bool)
    ensures
        r == (*value is None),
{
    value.is_none()
}

/// The value of a switch that is on unless the file says otherwise.
pub fn default_true() -> (r: bool)
    ensures
        r,
{
    true
}

} // verus!
