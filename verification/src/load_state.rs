//! The state of one load pipeline of an instance, and how it moves.

use vstd::prelude::*;

verus! {

/// Where a pipeline stands: whether a snapshot is published, whether a load is
/// running, and whether changes arrived that no load has picked up yet.
#[derive(Debug, Clone, Copy, PartialEq, Eq, Structural)]
pub enum BridgeDataLoadState {
    Unloaded,
    Loading,
    Loaded,
    LoadingDirty,
    LoadedDirty,
}

/// What starting a load did.
#[derive(Debug, Clone, Copy, PartialEq, Eq, Structural)]
pub enum StartLoadResult {
    /// No snapshot existed: everything is scanned.
    Initial,
    /// A snapshot existed and changes were pending: only those are scanned.
    Reload,
    /// Nothing started: a load is running already, or nothing changed.
    Skipped,
}

impl BridgeDataLoadState {
    /// The state after a change was noticed: a running load and a published
    /// snapshot are marked as behind, the other states stay.
    pub open spec fn spec_marked_dirty(self) -> BridgeDataLoadState {
        match self {
            BridgeDataLoadState::Loading => BridgeDataLoadState::LoadingDirty,
            BridgeDataLoadState::Loaded => BridgeDataLoadState::LoadedDirty,
            other => other,
        }
    }

    /// The state after a change was noticed.
    #[verifier::when_used_as_spec(spec_marked_dirty)]
    pub fn marked_dirty(self) -> (r: BridgeDataLoadState)
        ensures
            r == self.spec_marked_dirty(),
    {
        match self {
            BridgeDataLoadState::Loading => BridgeDataLoadState::LoadingDirty,
            BridgeDataLoadState::Loaded => BridgeDataLoadState::LoadedDirty,
            other => other,
        }
    }

    /// Whether a load is running in this state.
    pub open spec fn spec_is_loading(self) -> bool {
        self == BridgeDataLoadState::Loading || self == BridgeDataLoadState::LoadingDirty
    }

    /// Whether a load is running in this state.
    #[verifier::when_used_as_spec(spec_is_loading)]
    pub fn is_loading(self) -> (r: bool)
        ensures
            r == self.spec_is_loading(),
    {
        match self {
            BridgeDataLoadState::Loading => true,
            BridgeDataLoadState::LoadingDirty => true,
            _ => false,
        }
    }

    /// The state after the running load has published its snapshot: loaded,
    /// and still behind if changes arrived while it ran.
    pub open spec fn spec_finished(self) -> BridgeDataLoadState
        recommends
            self.spec_is_loading(),
    {
        if self == BridgeDataLoadState::LoadingDirty {
            BridgeDataLoadState::LoadedDirty
        } else {
            BridgeDataLoadState::Loaded
        }
    }

    /// The state after the running load has published its snapshot.
    #[verifier::when_used_as_spec(spec_finished)]
    pub fn finished(self) -> (r: BridgeDataLoadState)
        requires
            self.spec_is_loading(),
        ensures
            r == self.spec_finished(),
    {
        match self {
            BridgeDataLoadState::LoadingDirty => BridgeDataLoadState::LoadedDirty,
            _ => BridgeDataLoadState::Loaded,
        }
    }
}

/// A change that arrives during a load is still owed after the load.
pub proof fn lemma_dirt_survives_load(state: BridgeDataLoadState)
    requires
        state.is_loading(),
    ensures
        state.marked_dirty().finished() == BridgeDataLoadState::LoadedDirty,
        state.marked_dirty().is_loading(),
{
}

} // verus!
