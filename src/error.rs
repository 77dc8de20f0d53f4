use vstd::prelude::*;

verus! {

/// One of the four single-occupancy cells of a session.
#[derive(Debug, Clone, Copy, PartialEq, Eq, Structural)]
pub enum Slot {
    Game,
    Warrior,
    WarriorDeck,
    Battle,
}

/// Why an operation on a session was refused.
#[derive(Debug, PartialEq, Eq)]
pub enum SessionError {
    /// The operation needs a slot that is empty.
    Uninitialized(Slot),
    /// The game was created once already.
    AlreadyInitialized(Slot),
    /// The operation would create a second live value in an occupied slot.
    Conflict(Slot),
    /// A battle-scoped operation found no live battle.
    NoBattle,
    /// A payload from the host could not be decoded.
    InvalidInput(String),
    /// The engine reported a failure; its message is kept verbatim.
    EngineFailure(String),
    /// The host's lock around the session was poisoned.
    LockFailure,
}

} // verus!
