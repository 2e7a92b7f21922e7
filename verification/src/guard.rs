//! The guard of a raw-mode session.

use vstd::prelude::*;
use crate::attributes::{AttributesView, TerminalAttributes};

verus! {

/// The handle of one raw-mode session.
///
/// A guard is active from its construction until its release, and released
/// ever after. While it is active it owns the snapshot that was captured
/// before raw mode was applied; the release hands that snapshot back, once.
#[derive(Debug)]
pub struct RawModeGuard {
    snapshot: Option<TerminalAttributes>,
}

/// What an optional set of attributes holds, as a mathematical value.
pub open spec fn view_of(attributes: Option<TerminalAttributes>) -> Option<AttributesView> {
    match attributes {
        Some(held) => Some(held@),
        None => None,
    }
}

impl View for RawModeGuard {
    type V = Option<AttributesView>;

    /// The snapshot that an active guard owns; `None` for a released guard.
    closed spec fn view(&self) -> Option<AttributesView> {
        view_of(self.snapshot)
    }
}

/// What a release comes to: the state it leaves the guard in, and the snapshot
/// that is to be restored, if any.
pub struct Release {
    /// The guard's state after the release.
    pub guard: Option<AttributesView>,
    /// The snapshot to apply to the device.
    pub restore: Option<AttributesView>,
}

/// The release of a guard in state `guard`. The guard is released afterwards,
/// and what is to be restored is the snapshot that the guard owned: all of it
/// if the guard was active, nothing if it was released already.
pub open spec fn release_of(guard: Option<AttributesView>) -> Release {
    Release { guard: None, restore: guard }
}

impl RawModeGuard {
    /// Whether the guard is still active.
    pub open spec fn active(&self) -> bool {
        self@ is Some
    }

    /// An active guard that owns `original`, the snapshot captured before raw
    /// mode was applied.
    pub fn new(original: TerminalAttributes) -> (guard: RawModeGuard)
        ensures
            guard@ == Some(original@),
    {
        RawModeGuard { snapshot: Some(original) }
    }

    /// Whether the guard is still active.
    pub fn is_active(&self) -> (active: bool)
        ensures
            active == self.active(),
    {
        self.snapshot.is_some()
    }
}

/// Releases the guard and says what is to be restored.
///
/// From an active guard it returns the snapshot that the guard was built
/// with, field for field, to be applied to the device as it is. From a
/// released guard it returns `None`: there is nothing left to restore. Either
/// way the guard is released afterwards.
#[must_use]
pub fn disable_raw_mode(guard: &mut RawModeGuard) -> (restore: Option<TerminalAttributes>)
    ensures
        final(guard)@ == release_of(old(guard)@).guard,
        view_of(restore) == release_of(old(guard)@).restore,
{
    guard.snapshot.take()
}

/// A guard hands back what it was given: the release of an active guard
/// restores the snapshot that the guard was built with, equal in every field.
pub proof fn lemma_release_restores_the_snapshot(original: AttributesView)
    ensures
        release_of(Some(original)).restore == Some(original),
        release_of(Some(original)).guard is None,
{
}

/// Release is idempotent: a second release finds nothing to restore and leaves
/// the guard as the first release left it. So of any two releases in a row at
/// most the first restores anything.
pub proof fn lemma_release_is_idempotent(guard: Option<AttributesView>)
    ensures
        release_of(release_of(guard).guard).restore is None,
        release_of(release_of(guard).guard).guard == release_of(guard).guard,
{
}

} // verus!
