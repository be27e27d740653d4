//! The mod loaders an instance can run with.

use vstd::prelude::*;

verus! {

/// The mod loader of an instance.
#[derive(Debug, Clone, Copy, PartialEq, Eq, Structural)]
pub enum Loader {
    Vanilla,
    Fabric,
    Forge,
    NeoForge,
}

} // verus!
