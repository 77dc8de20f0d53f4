use vstd::prelude::*;
use crate::error::{SessionError, Slot};
use crate::model::{reports, Point, SessionModel};

verus! {

/// The single authoritative session: four slots, each holding at most one value.
///
/// `G` is the engine's game, `W` the warrior context, `D` the warrior's deck
/// context, and `B` a live battle.
pub struct Session<G, W, D, B> {
    game: Option<G>,
    warrior: Option<W>,
    deck: Option<D>,
    battle: Option<B>,
}

impl<G, W, D, B> View for Session<G, W, D, B> {
    type V = SessionModel<G, W, D, B>;

    closed spec fn view(&self) -> SessionModel<G, W, D, B> {
        SessionModel {
            game: self.game,
            warrior: self.warrior,
            deck: self.deck,
            battle: self.battle,
        }
    }
}

impl<G, W, D, B> Session<G, W, D, B> {
    /// A session with every slot empty.
    pub fn new() -> (s: Self)
        ensures
            s@ == SessionModel::<G, W, D, B>::empty(),
    {
        Session { game: None, warrior: None, deck: None, battle: None }
    }

    pub fn has_game(&self) -> (r: bool)
        ensures
            r == self@.game.is_some(),
    {
        self.game.is_some()
    }

    pub fn has_battle(&self) -> (r: bool)
        ensures
            r == self@.battle.is_some(),
    {
        self.battle.is_some()
    }
}

/// Installs the game that the engine built from a resource pool and a seed.
///
/// Fails with `AlreadyInitialized` when a game exists, whatever `built` holds;
/// otherwise an engine failure is passed on and nothing is installed.
pub fn create_game<G, W, D, B>(session: &mut Session<G, W, D, B>, built: Result<G, String>) -> (r:
    Result<WasmGame, SessionError>)
    ensures
        reports(r, old(session)@.create_game_error(built)),
        final(session)@ == old(session)@.after_create_game(built),
{
    if session.game.is_some() {
        return Err(SessionError::AlreadyInitialized(Slot::Game));
    }
    match built {
        Err(m) => Err(SessionError::EngineFailure(m)),
        Ok(g) => {
            session.game = Some(g);
            Ok(WasmGame {})
        },
    }
}

/// Handle for the operations that need only the game.
#[derive(Debug, Clone, Copy)]
pub struct WasmGame {}

/// Handle for the map-phase operations.
#[derive(Debug, Clone, Copy)]
pub struct WasmMap {}

/// Handle for the operations on the live battle.
#[derive(Debug)]
pub struct WasmBattle {}

/// What the engine needs to make a warrior and a deck for a new session.
#[derive(Debug, PartialEq, Eq)]
pub struct SessionRequest {
    pub player_id: u16,
    pub point: Point,
    /// The encoded potion to consume, if the host supplied one.
    pub potion: Option<Vec<u8>>,
}

impl WasmGame {
    /// The game, whose potion the host reads.
    pub fn get_potion<'a, G, W, D, B>(&self, session: &'a Session<G, W, D, B>) -> (r: Result<
        &'a G,
        SessionError,
    >)
        ensures
            match r {
                Ok(g) => session@.game == Some(*g),
                Err(e) => session@.game.is_none() && e == SessionError::Uninitialized(Slot::Game),
            },
    {
        match &session.game {
            Some(g) => Ok(g),
            None => Err(SessionError::Uninitialized(Slot::Game)),
        }
    }

    pub fn get_map(&self) -> (r: WasmMap) {
        WasmMap {}
    }

    /// Checks that a session can be opened and lends the game to the engine,
    /// together with the request to pass it.
    ///
    /// Fails with `Conflict` while a warrior or a deck is present, then with
    /// `Uninitialized` when there is no game; a failure changes nothing. An
    /// empty `raw_potion` means that no potion is supplied.
    pub fn create_session<'a, G, W, D, B>(
        &self,
        session: &'a mut Session<G, W, D, B>,
        player_id: u16,
        point_x: u8,
        point_y: u8,
        raw_potion: Vec<u8>,
    ) -> (r: Result<(&'a mut G, SessionRequest), SessionError>)
        ensures
            reports(r, old(session)@.open_session_error()),
            match r {
                Ok((g, req)) => {
                    &&& old(session)@.game == Some(*g)
                    &&& final(session)@ == SessionModel { game: Some(*final(g)), ..old(session)@ }
                    &&& req.player_id == player_id
                    &&& req.point == Point { x: point_x, y: point_y }
                    &&& req.potion == (if raw_potion@.len() == 0 {
                        None::<Vec<u8>>
                    } else {
                        Some(raw_potion)
                    })
                },
                Err(_) => final(session)@ == old(session)@,
            },
    {
        if session.warrior.is_some() {
            return Err(SessionError::Conflict(Slot::Warrior));
        }
        if session.deck.is_some() {
            return Err(SessionError::Conflict(Slot::WarriorDeck));
        }
        let potion = if raw_potion.len() == 0 {
            None
        } else {
            Some(raw_potion)
        };
        let req = SessionRequest { player_id, point: Point { x: point_x, y: point_y }, potion };
        match &mut session.game {
            Some(g) => Ok((g, req)),
            None => Err(SessionError::Uninitialized(Slot::Game)),
        }
    }

    /// Installs the warrior and the deck that the engine made for a new
    /// session: both of them, or neither.
    pub fn finish_session<G, W, D, B>(
        &self,
        session: &mut Session<G, W, D, B>,
        made: Result<(W, D), String>,
    ) -> (r: Result<(), SessionError>)
        ensures
            reports(r, old(session)@.install_session_error(made)),
            final(session)@ == old(session)@.after_install_session(made),
    {
        if session.warrior.is_some() {
            return Err(SessionError::Conflict(Slot::Warrior));
        }
        if session.deck.is_some() {
            return Err(SessionError::Conflict(Slot::WarriorDeck));
        }
        match made {
            Err(m) => Err(SessionError::EngineFailure(m)),
            Ok((w, d)) => {
                session.warrior = Some(w);
                session.deck = Some(d);
                Ok(())
            },
        }
    }
}

/// What the engine needs to move the warrior.
#[derive(Debug, PartialEq, Eq)]
pub struct MoveRequest {
    pub point: Point,
    /// The user's choices that disambiguate the move, in order.
    pub selections: Vec<usize>,
}

/// Widens each selection byte to an index, keeping the order.
fn widen_selections(selections: &Vec<u8>) -> (r: Vec<usize>)
    ensures
        r@.len() == selections@.len(),
        forall|i: int| 0 <= i < r@.len() ==> r@[i] == selections@[i] as usize,
{
    let mut r: Vec<usize> = Vec::new();
    let mut i: usize = 0;
    while i < selections.len()
        invariant
            i <= selections@.len(),
            r@.len() == i,
            forall|j: int| 0 <= j < i ==> r@[j] == selections@[j] as usize,
        decreases selections@.len() - i,
    {
        r.push(selections[i] as usize);
        i = i + 1;
    }
    r
}

impl WasmMap {
    /// The game, whose map the host reads.
    pub fn get_profile<'a, G, W, D, B>(&self, session: &'a Session<G, W, D, B>) -> (r: Result<
        &'a G,
        SessionError,
    >)
        ensures
            match r {
                Ok(g) => session@.game == Some(*g),
                Err(e) => session@.game.is_none() && e == SessionError::Uninitialized(Slot::Game),
            },
    {
        match &session.game {
            Some(g) => Ok(g),
            None => Err(SessionError::Uninitialized(Slot::Game)),
        }
    }

    /// The warrior context of the session.
    pub fn get_warrior_profile<'a, G, W, D, B>(&self, session: &'a Session<G, W, D, B>) -> (r:
        Result<&'a W, SessionError>)
        ensures
            match r {
                Ok(w) => session@.warrior == Some(*w),
                Err(e) => session@.warrior.is_none() && e == SessionError::Uninitialized(
                    Slot::Warrior,
                ),
            },
    {
        match &session.warrior {
            Some(w) => Ok(w),
            None => Err(SessionError::Uninitialized(Slot::Warrior)),
        }
    }

    /// The deck context of the session.
    pub fn get_warrior_deck_profile<'a, G, W, D, B>(&self, session: &'a Session<G, W, D, B>) -> (r:
        Result<&'a D, SessionError>)
        ensures
            match r {
                Ok(d) => session@.deck == Some(*d),
                Err(e) => session@.deck.is_none() && e == SessionError::Uninitialized(
                    Slot::WarriorDeck,
                ),
            },
    {
        match &session.deck {
            Some(d) => Ok(d),
            None => Err(SessionError::Uninitialized(Slot::WarriorDeck)),
        }
    }

    /// Lends the game and the warrior to the engine, which previews the move
    /// to `(point_x, point_y)`. Fails, changing nothing, when either is missing.
    pub fn peak_movement<'a, G, W, D, B>(
        &self,
        session: &'a mut Session<G, W, D, B>,
        point_x: u8,
        point_y: u8,
    ) -> (r: Result<(&'a mut G, &'a mut W, Point), SessionError>)
        ensures
            reports(r, old(session)@.peek_error()),
            match r {
                Ok((g, w, p)) => {
                    &&& old(session)@.game == Some(*g)
                    &&& old(session)@.warrior == Some(*w)
                    &&& final(session)@ == SessionModel {
                        game: Some(*final(g)),
                        warrior: Some(*final(w)),
                        ..old(session)@
                    }
                    &&& p == Point { x: point_x, y: point_y }
                },
                Err(_) => final(session)@ == old(session)@,
            },
    {
        if session.game.is_none() {
            return Err(SessionError::Uninitialized(Slot::Game));
        }
        if session.warrior.is_none() {
            return Err(SessionError::Uninitialized(Slot::Warrior));
        }
        let Session { game, warrior, .. } = session;
        match (game, warrior) {
            (Some(g), Some(w)) => Ok((g, w, Point { x: point_x, y: point_y })),
            _ => Err(SessionError::Uninitialized(Slot::Game)),
        }
    }

    /// Lends the game, the warrior and the deck to the engine, which moves the
    /// warrior to `(point_x, point_y)`. Fails, changing nothing, when any of
    /// them is missing. The battle slot is not touched.
    pub fn move_player<'a, G, W, D, B>(
        &self,
        session: &'a mut Session<G, W, D, B>,
        point_x: u8,
        point_y: u8,
        selections: Vec<u8>,
    ) -> (r: Result<(&'a mut G, &'a mut W, &'a mut D, MoveRequest), SessionError>)
        ensures
            reports(r, old(session)@.move_error()),
            match r {
                Ok((g, w, d, req)) => {
                    &&& old(session)@.game == Some(*g)
                    &&& old(session)@.warrior == Some(*w)
                    &&& old(session)@.deck == Some(*d)
                    &&& final(session)@ == SessionModel {
                        game: Some(*final(g)),
                        warrior: Some(*final(w)),
                        deck: Some(*final(d)),
                        ..old(session)@
                    }
                    &&& req.point == Point { x: point_x, y: point_y }
                    &&& req.selections@.len() == selections@.len()
                    &&& forall|i: int|
                        0 <= i < selections@.len() ==> req.selections@[i] == selections@[i] as usize
                },
                Err(_) => final(session)@ == old(session)@,
            },
    {
        if session.game.is_none() {
            return Err(SessionError::Uninitialized(Slot::Game));
        }
        if session.warrior.is_none() {
            return Err(SessionError::Uninitialized(Slot::Warrior));
        }
        if session.deck.is_none() {
            return Err(SessionError::Uninitialized(Slot::WarriorDeck));
        }
        let req = MoveRequest {
            point: Point { x: point_x, y: point_y },
            selections: widen_selections(&selections),
        };
        let Session { game, warrior, deck, .. } = session;
        match (game, warrior, deck) {
            (Some(g), Some(w), Some(d)) => Ok((g, w, d, req)),
            _ => Err(SessionError::Uninitialized(Slot::Game)),
        }
    }

    /// Records what a move produced: `Some(battle)` when it triggered a fight.
    ///
    /// A fight is installed only into a free battle slot; with a battle
    /// already live it fails with `Conflict`, and what the move did to the
    /// map, the warrior and the deck stays done.
    pub fn settle_move<G, W, D, B>(&self, session: &mut Session<G, W, D, B>, fight: Option<B>) -> (r:
        Result<(), SessionError>)
        ensures
            reports(r, old(session)@.settle_move_error(fight)),
            final(session)@ == old(session)@.after_settle_move(fight),
    {
        match fight {
            None => Ok(()),
            Some(b) => {
                if session.battle.is_some() {
                    return Err(SessionError::Conflict(Slot::Battle));
                }
                session.battle = Some(b);
                Ok(())
            },
        }
    }

    /// A handle on the battle that a move triggered; `NoBattle` when none is live.
    pub fn create_pve_battle<G, W, D, B>(&self, session: &Session<G, W, D, B>) -> (r: Result<
        WasmBattle,
        SessionError,
    >)
        ensures
            reports(r, session@.battle_error()),
    {
        if session.battle.is_none() {
            return Err(SessionError::NoBattle);
        }
        Ok(WasmBattle {})
    }
}

/// Lends the game (for its controller) and the live battle, checked in that order.
fn lend_game_and_battle<'a, G, W, D, B>(session: &'a mut Session<G, W, D, B>) -> (r: Result<
    (&'a mut G, &'a mut B),
    SessionError,
>)
    ensures
        reports(r, old(session)@.run_error()),
        match r {
            Ok((g, b)) => {
                &&& old(session)@.game == Some(*g)
                &&& old(session)@.battle == Some(*b)
                &&& final(session)@ == SessionModel {
                    game: Some(*final(g)),
                    battle: Some(*final(b)),
                    ..old(session)@
                }
            },
            Err(_) => final(session)@ == old(session)@,
        },
{
    if session.game.is_none() {
        return Err(SessionError::Uninitialized(Slot::Game));
    }
    if session.battle.is_none() {
        return Err(SessionError::NoBattle);
    }
    let Session { game, battle, .. } = session;
    match (game, battle) {
        (Some(g), Some(b)) => Ok((g, b)),
        _ => Err(SessionError::NoBattle),
    }
}

impl WasmBattle {
    /// Lends the game and the battle to the engine, which runs the battle's
    /// opening phase. Fails, changing nothing, without a game (`Uninitialized`)
    /// or without a live battle (`NoBattle`).
    pub fn start<'a, G, W, D, B>(&self, session: &'a mut Session<G, W, D, B>) -> (r: Result<
        (&'a mut G, &'a mut B),
        SessionError,
    >)
        ensures
            reports(r, old(session)@.run_error()),
            match r {
                Ok((g, b)) => {
                    &&& old(session)@.game == Some(*g)
                    &&& old(session)@.battle == Some(*b)
                    &&& final(session)@ == SessionModel {
                        game: Some(*final(g)),
                        battle: Some(*final(b)),
                        ..old(session)@
                    }
                },
                Err(_) => final(session)@ == old(session)@,
            },
    {
        lend_game_and_battle(session)
    }

    /// Lends the game and the battle to the engine, which advances the battle
    /// by the host's operations. Fails as [`WasmBattle::start`] does.
    pub fn iterate<'a, G, W, D, B>(&self, session: &'a mut Session<G, W, D, B>) -> (r: Result<
        (&'a mut G, &'a mut B),
        SessionError,
    >)
        ensures
            reports(r, old(session)@.run_error()),
            match r {
                Ok((g, b)) => {
                    &&& old(session)@.game == Some(*g)
                    &&& old(session)@.battle == Some(*b)
                    &&& final(session)@ == SessionModel {
                        game: Some(*final(g)),
                        battle: Some(*final(b)),
                        ..old(session)@
                    }
                },
                Err(_) => final(session)@ == old(session)@,
            },
    {
        lend_game_and_battle(session)
    }

    /// Lends the live battle to the engine, which tells whether a target
    /// selection is legal. Fails with `NoBattle`, changing nothing.
    pub fn check_peak_target<'a, G, W, D, B>(&self, session: &'a mut Session<G, W, D, B>) -> (r:
        Result<&'a mut B, SessionError>)
        ensures
            reports(r, old(session)@.battle_error()),
            match r {
                Ok(b) => {
                    &&& old(session)@.battle == Some(*b)
                    &&& final(session)@ == SessionModel { battle: Some(*final(b)), ..old(session)@ }
                },
                Err(_) => final(session)@ == old(session)@,
            },
    {
        match &mut session.battle {
            Some(b) => Ok(b),
            None => Err(SessionError::NoBattle),
        }
    }

    /// Takes the live battle out of its slot, for the engine to break it back
    /// into a warrior and a deck (see [`WasmBattle::restore`]). Fails with
    /// `NoBattle`, changing nothing.
    pub fn destroy<G, W, D, B>(self, session: &mut Session<G, W, D, B>) -> (r: Result<
        B,
        SessionError,
    >)
        ensures
            reports(r, old(session)@.battle_error()),
            match r {
                Ok(b) => {
                    &&& old(session)@.battle == Some(b)
                    &&& final(session)@ == old(session)@.after_destroy()
                },
                Err(_) => final(session)@ == old(session)@,
            },
    {
        match session.battle.take() {
            Some(b) => Ok(b),
            None => Err(SessionError::NoBattle),
        }
    }

    /// Puts back the warrior and the deck that the engine recovered from a
    /// destroyed battle, in place of whatever the slots held. An engine
    /// failure is passed on and nothing is installed.
    pub fn restore<G, W, D, B>(session: &mut Session<G, W, D, B>, parts: Result<(W, D), String>) -> (r:
        Result<(), SessionError>)
        ensures
            reports(r, old(session)@.restore_error(parts)),
            final(session)@ == old(session)@.after_restore(parts),
    {
        match parts {
            Err(m) => Err(SessionError::EngineFailure(m)),
            Ok((w, d)) => {
                session.warrior = Some(w);
                session.deck = Some(d);
                Ok(())
            },
        }
    }
}

/// Installs a battle that the engine built directly from a player, a deck and
/// enemies, outside map movement. Fails with `Conflict` while a battle is
/// live, whatever `built` holds; otherwise an engine failure is passed on.
pub fn create_standalone_battle<G, W, D, B>(
    session: &mut Session<G, W, D, B>,
    built: Result<B, String>,
) -> (r: Result<WasmBattle, SessionError>)
    ensures
        reports(r, old(session)@.standalone_error(built)),
        final(session)@ == old(session)@.after_standalone(built),
{
    if session.battle.is_some() {
        return Err(SessionError::Conflict(Slot::Battle));
    }
    match built {
        Err(m) => Err(SessionError::EngineFailure(m)),
        Ok(b) => {
            session.battle = Some(b);
            Ok(WasmBattle {})
        },
    }
}

} // verus!
