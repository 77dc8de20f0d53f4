use vstd::prelude::*;
use crate::error::{SessionError, Slot};
use crate::model::SessionModel;

verus! {

/// Once a game has been created, creating one again fails with
/// `AlreadyInitialized`, whatever the engine would build the second time.
pub proof fn lemma_create_game_once<G, W, D, B>(
    s: SessionModel<G, W, D, B>,
    first: Result<G, String>,
    second: Result<G, String>,
)
    requires
        s.create_game_error(first).is_none(),
    ensures
        s.after_create_game(first).create_game_error(second) == Some(
            SessionError::AlreadyInitialized(Slot::Game),
        ),
        s.after_create_game(first).after_create_game(second) == s.after_create_game(first),
{
}

/// Opening a session leaves the warrior and the deck both present or both
/// absent, for every outcome of the engine: lending the game touches neither,
/// and installing sets both or neither.
pub proof fn lemma_session_keeps_pair<G, W, D, B>(
    s: SessionModel<G, W, D, B>,
    lent_back: G,
    made: Result<(W, D), String>,
)
    requires
        s.paired(),
    ensures
        (SessionModel { game: Some(lent_back), ..s }).paired(),
        s.after_install_session(made).paired(),
        s.install_session_error(made).is_none() ==> s.after_install_session(made).warrior.is_some(),
        s.install_session_error(made).is_some() ==> s.after_install_session(made) == s,
{
}

/// Every transition of the session keeps the warrior and its deck paired.
pub proof fn lemma_all_steps_keep_pair<G, W, D, B>(
    s: SessionModel<G, W, D, B>,
    game: Result<G, String>,
    made: Result<(W, D), String>,
    fight: Option<B>,
    parts: Result<(W, D), String>,
    built: Result<B, String>,
)
    requires
        s.paired(),
    ensures
        s.after_create_game(game).paired(),
        s.after_install_session(made).paired(),
        s.after_settle_move(fight).paired(),
        s.after_destroy().paired(),
        s.after_restore(parts).paired(),
        s.after_standalone(built).paired(),
{
}

/// Without a live battle, every battle-scoped operation fails: with
/// `NoBattle`, or with `Uninitialized` where the game is missing too. (Each
/// operation's own contract says that a failure changes nothing.)
pub proof fn lemma_no_battle_fails<G, W, D, B>(s: SessionModel<G, W, D, B>)
    requires
        s.battle.is_none(),
    ensures
        s.battle_error() == Some(SessionError::NoBattle),
        s.run_error() == Some(SessionError::Uninitialized(Slot::Game)) || s.run_error() == Some(
            SessionError::NoBattle,
        ),
        s.run_error().is_some(),
{
}

/// Destroying a live battle and restoring what the engine recovered from it
/// leaves the battle slot empty and the warrior and deck slots filled.
pub proof fn lemma_destroy_round_trip<G, W, D, B>(s: SessionModel<G, W, D, B>, w: W, d: D)
    requires
        s.battle.is_some(),
    ensures
        s.battle_error().is_none(),
        s.after_destroy().restore_error(Ok((w, d))).is_none(),
        s.after_destroy().after_restore(Ok((w, d))).battle.is_none(),
        s.after_destroy().after_restore(Ok((w, d))).warrior == Some(w),
        s.after_destroy().after_restore(Ok((w, d))).deck == Some(d),
        s.after_destroy().after_restore(Ok((w, d))).game == s.game,
{
}

/// A move without a fight leaves the session as it was; a fight installs
/// exactly that battle into a free slot, and fails with `Conflict` over a
/// live one, leaving that one in place.
pub proof fn lemma_move_and_battle_slot<G, W, D, B>(s: SessionModel<G, W, D, B>, b: B)
    ensures
        s.settle_move_error(None).is_none(),
        s.after_settle_move(None) == s,
        s.battle.is_none() ==> s.settle_move_error(Some(b)).is_none(),
        s.battle.is_none() ==> s.after_settle_move(Some(b)) == (SessionModel { battle: Some(b), ..s }),
        s.battle.is_some() ==> s.settle_move_error(Some(b)) == Some(SessionError::Conflict(Slot::Battle)),
        s.battle.is_some() ==> s.after_settle_move(Some(b)) == s,
{
}

/// One host call of the map phase, with what the engine answered to it.
pub enum MapCall<G, W, D, B> {
    CreateGame(Result<G, String>),
    /// The engine's warrior and deck, and the game as the engine left it.
    CreateSession(G, Result<(W, D), String>),
    /// The game, warrior and deck as the move left them, and the fight it
    /// triggered, if any.
    MovePlayer(G, W, D, Option<B>),
}

/// The state and result of one map-phase call, as the operations' contracts
/// give them.
pub open spec fn step<G, W, D, B>(s: SessionModel<G, W, D, B>, c: MapCall<G, W, D, B>) -> (
    SessionModel<G, W, D, B>,
    Option<SessionError>,
) {
    match c {
        MapCall::CreateGame(built) => (s.after_create_game(built), s.create_game_error(built)),
        MapCall::CreateSession(g, made) => if s.open_session_error().is_some() {
            (s, s.open_session_error())
        } else {
            let t = SessionModel { game: Some(g), ..s };
            (t.after_install_session(made), t.install_session_error(made))
        },
        MapCall::MovePlayer(g, w, d, fight) => if s.move_error().is_some() {
            (s, s.move_error())
        } else {
            let t = SessionModel { game: Some(g), warrior: Some(w), deck: Some(d), ..s };
            (t.after_settle_move(fight), t.settle_move_error(fight))
        },
    }
}

/// The final state and the results of a sequence of map-phase calls.
pub open spec fn replay<G, W, D, B>(s: SessionModel<G, W, D, B>, calls: Seq<MapCall<G, W, D, B>>) -> (
    SessionModel<G, W, D, B>,
    Seq<Option<SessionError>>,
)
    decreases calls.len(),
{
    if calls.len() == 0 {
        (s, Seq::empty())
    } else {
        let (t, e) = step(s, calls[0]);
        let (u, es) = replay(t, calls.drop_first());
        (u, seq![e].add(es))
    }
}

/// Two sessions in the same state, given the same calls with the same engine
/// answers, end in the same state with the same results.
pub proof fn lemma_replay_deterministic<G, W, D, B>(
    s1: SessionModel<G, W, D, B>,
    s2: SessionModel<G, W, D, B>,
    calls: Seq<MapCall<G, W, D, B>>,
)
    requires
        s1 == s2,
    ensures
        replay(s1, calls) == replay(s2, calls),
        replay(s1, calls).1.len() == calls.len(),
    decreases calls.len(),
{
    if calls.len() > 0 {
        let (t, e) = step(s1, calls[0]);
        lemma_replay_deterministic(t, t, calls.drop_first());
    }
}

} // verus!
