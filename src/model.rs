use vstd::prelude::*;
use crate::error::{SessionError, Slot};

verus! {

/// A point on the game map.
#[derive(Debug, Clone, Copy, PartialEq, Eq, Structural)]
pub struct Point {
    pub x: u8,
    pub y: u8,
}

/// The abstract state of a session: what each of the four slots holds.
pub struct SessionModel<G, W, D, B> {
    pub game: Option<G>,
    pub warrior: Option<W>,
    pub deck: Option<D>,
    pub battle: Option<B>,
}

/// `r` is a success exactly when `e` is `None`, and otherwise fails with `e`.
pub open spec fn reports<T>(r: Result<T, SessionError>, e: Option<SessionError>) -> bool {
    match r {
        Ok(_) => e.is_none(),
        Err(x) => e == Some(x),
    }
}

impl<G, W, D, B> SessionModel<G, W, D, B> {
    /// The warrior and its deck are present together or absent together.
    pub open spec fn paired(self) -> bool {
        self.warrior.is_some() == self.deck.is_some()
    }

    pub open spec fn empty() -> Self {
        SessionModel { game: None, warrior: None, deck: None, battle: None }
    }

    // ---- game creation ----

    pub open spec fn create_game_error(self, built: Result<G, String>) -> Option<SessionError> {
        if self.game.is_some() {
            Some(SessionError::AlreadyInitialized(Slot::Game))
        } else {
            match built {
                Err(m) => Some(SessionError::EngineFailure(m)),
                Ok(_) => None,
            }
        }
    }

    pub open spec fn after_create_game(self, built: Result<G, String>) -> Self {
        match built {
            Ok(g) if self.game.is_none() => SessionModel { game: Some(g), ..self },
            _ => self,
        }
    }

    // ---- session creation ----

    /// Why a new warrior and deck cannot be asked of the game, if they cannot.
    pub open spec fn open_session_error(self) -> Option<SessionError> {
        if self.warrior.is_some() {
            Some(SessionError::Conflict(Slot::Warrior))
        } else if self.deck.is_some() {
            Some(SessionError::Conflict(Slot::WarriorDeck))
        } else if self.game.is_none() {
            Some(SessionError::Uninitialized(Slot::Game))
        } else {
            None
        }
    }

    pub open spec fn install_session_error(self, made: Result<(W, D), String>) -> Option<SessionError> {
        if self.warrior.is_some() {
            Some(SessionError::Conflict(Slot::Warrior))
        } else if self.deck.is_some() {
            Some(SessionError::Conflict(Slot::WarriorDeck))
        } else {
            match made {
                Err(m) => Some(SessionError::EngineFailure(m)),
                Ok(_) => None,
            }
        }
    }

    pub open spec fn after_install_session(self, made: Result<(W, D), String>) -> Self {
        match made {
            Ok((w, d)) if self.install_session_error(made).is_none() => SessionModel {
                warrior: Some(w),
                deck: Some(d),
                ..self
            },
            _ => self,
        }
    }

    // ---- map phase ----

    pub open spec fn peek_error(self) -> Option<SessionError> {
        if self.game.is_none() {
            Some(SessionError::Uninitialized(Slot::Game))
        } else if self.warrior.is_none() {
            Some(SessionError::Uninitialized(Slot::Warrior))
        } else {
            None
        }
    }

    pub open spec fn move_error(self) -> Option<SessionError> {
        if self.game.is_none() {
            Some(SessionError::Uninitialized(Slot::Game))
        } else if self.warrior.is_none() {
            Some(SessionError::Uninitialized(Slot::Warrior))
        } else if self.deck.is_none() {
            Some(SessionError::Uninitialized(Slot::WarriorDeck))
        } else {
            None
        }
    }

    /// A move that triggered a fight (`Some`) must find the battle slot free.
    pub open spec fn settle_move_error(self, fight: Option<B>) -> Option<SessionError> {
        if fight.is_some() && self.battle.is_some() {
            Some(SessionError::Conflict(Slot::Battle))
        } else {
            None
        }
    }

    pub open spec fn after_settle_move(self, fight: Option<B>) -> Self {
        match fight {
            Some(b) if self.battle.is_none() => SessionModel { battle: Some(b), ..self },
            _ => self,
        }
    }

    // ---- battle phase ----

    pub open spec fn battle_error(self) -> Option<SessionError> {
        if self.battle.is_none() {
            Some(SessionError::NoBattle)
        } else {
            None
        }
    }

    /// Starting or advancing a battle needs the game's controller and the battle.
    pub open spec fn run_error(self) -> Option<SessionError> {
        if self.game.is_none() {
            Some(SessionError::Uninitialized(Slot::Game))
        } else {
            self.battle_error()
        }
    }

    pub open spec fn after_destroy(self) -> Self {
        SessionModel { battle: None, ..self }
    }

    pub open spec fn restore_error(self, parts: Result<(W, D), String>) -> Option<SessionError> {
        match parts {
            Err(m) => Some(SessionError::EngineFailure(m)),
            Ok(_) => None,
        }
    }

    pub open spec fn after_restore(self, parts: Result<(W, D), String>) -> Self {
        match parts {
            Ok((w, d)) => SessionModel { warrior: Some(w), deck: Some(d), ..self },
            Err(_) => self,
        }
    }

    pub open spec fn standalone_error(self, built: Result<B, String>) -> Option<SessionError> {
        if self.battle.is_some() {
            Some(SessionError::Conflict(Slot::Battle))
        } else {
            match built {
                Err(m) => Some(SessionError::EngineFailure(m)),
                Ok(_) => None,
            }
        }
    }

    pub open spec fn after_standalone(self, built: Result<B, String>) -> Self {
        match built {
            Ok(b) if self.battle.is_none() => SessionModel { battle: Some(b), ..self },
            _ => self,
        }
    }
}

} // verus!
