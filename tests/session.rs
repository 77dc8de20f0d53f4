use spore_session::{
    create_game, create_standalone_battle, Point, Session, SessionError, Slot, WasmBattle,
    WasmGame, WasmMap,
};

// Stand-ins for the engine's values: a game is its map as bytes, a warrior its
// health, a deck its card ids, a battle its id.
type Sess = Session<Vec<u8>, u32, Vec<u32>, u64>;

fn game_with_session() -> Sess {
    let mut s: Sess = Session::new();
    let g = create_game(&mut s, Ok(vec![1, 2, 3])).unwrap();
    let (_, req) = g.create_session(&mut s, 1, 0, 0, vec![]).unwrap();
    assert_eq!(req.potion, None);
    g.finish_session(&mut s, Ok((100, vec![7, 8]))).unwrap();
    s
}

#[test]
fn scenario_a_second_create_game_fails() {
    let mut s: Sess = Session::new();
    assert!(create_game(&mut s, Ok(vec![42])).is_ok());
    let second = create_game(&mut s, Ok(vec![7]));
    assert_eq!(second.unwrap_err(), SessionError::AlreadyInitialized(Slot::Game));
    assert_eq!(WasmGame {}.get_potion(&s).unwrap(), &vec![42]);
}

#[test]
fn create_game_passes_engine_failure_on() {
    let mut s: Sess = Session::new();
    let r = create_game(&mut s, Err("corrupt pool".to_string()));
    assert_eq!(r.unwrap_err(), SessionError::EngineFailure("corrupt pool".to_string()));
    assert!(!s.has_game());
    assert!(create_game(&mut s, Ok(vec![1])).is_ok());
}

#[test]
fn scenario_b_session_without_game() {
    let mut s: Sess = Session::new();
    let r = WasmGame {}.create_session(&mut s, 1, 0, 0, vec![]);
    assert_eq!(r.err(), Some(SessionError::Uninitialized(Slot::Game)));
    assert_eq!(
        WasmMap {}.get_warrior_profile(&s).err(),
        Some(SessionError::Uninitialized(Slot::Warrior))
    );
}

#[test]
fn create_session_builds_the_request() {
    let mut s: Sess = Session::new();
    let g = create_game(&mut s, Ok(vec![5])).unwrap();
    let (game, req) = g.create_session(&mut s, 9, 3, 4, vec![1, 2]).unwrap();
    game.push(6);
    assert_eq!(req.player_id, 9);
    assert_eq!(req.point, Point { x: 3, y: 4 });
    assert_eq!(req.potion, Some(vec![1, 2]));
    assert_eq!(WasmMap {}.get_profile(&s).unwrap(), &vec![5, 6]);
}

#[test]
fn create_session_twice_conflicts() {
    let mut s = game_with_session();
    let r = WasmGame {}.create_session(&mut s, 2, 0, 0, vec![]);
    assert_eq!(r.err(), Some(SessionError::Conflict(Slot::Warrior)));
    let r = WasmGame {}.finish_session(&mut s, Ok((1, vec![])));
    assert_eq!(r, Err(SessionError::Conflict(Slot::Warrior)));
    assert_eq!(WasmMap {}.get_warrior_profile(&s).unwrap(), &100);
}

#[test]
fn failed_session_installs_neither() {
    let mut s: Sess = Session::new();
    let g = create_game(&mut s, Ok(vec![])).unwrap();
    let r = g.finish_session(&mut s, Err("no such warrior".to_string()));
    assert_eq!(r, Err(SessionError::EngineFailure("no such warrior".to_string())));
    assert!(WasmMap {}.get_warrior_profile(&s).is_err());
    assert_eq!(
        WasmMap {}.get_warrior_deck_profile(&s).err(),
        Some(SessionError::Uninitialized(Slot::WarriorDeck))
    );
    assert!(g.finish_session(&mut s, Ok((5, vec![1]))).is_ok());
    assert_eq!(WasmMap {}.get_warrior_profile(&s).unwrap(), &5);
    assert_eq!(WasmMap {}.get_warrior_deck_profile(&s).unwrap(), &vec![1]);
}

#[test]
fn peak_movement_needs_game_and_warrior() {
    let mut s: Sess = Session::new();
    let m = WasmMap {};
    assert_eq!(m.peak_movement(&mut s, 1, 1).err(), Some(SessionError::Uninitialized(Slot::Game)));
    create_game(&mut s, Ok(vec![])).unwrap();
    assert_eq!(
        m.peak_movement(&mut s, 1, 1).err(),
        Some(SessionError::Uninitialized(Slot::Warrior))
    );
    let mut s = game_with_session();
    let (_, w, p) = m.peak_movement(&mut s, 2, 5).unwrap();
    assert_eq!(*w, 100);
    assert_eq!(p, Point { x: 2, y: 5 });
}

#[test]
fn move_player_widens_selections() {
    let mut s = game_with_session();
    let (_, _, _, req) = WasmMap {}.move_player(&mut s, 1, 0, vec![0, 2, 255]).unwrap();
    assert_eq!(req.point, Point { x: 1, y: 0 });
    assert_eq!(req.selections, vec![0usize, 2, 255]);
}

#[test]
fn move_player_without_session() {
    let mut s: Sess = Session::new();
    create_game(&mut s, Ok(vec![])).unwrap();
    let r = WasmMap {}.move_player(&mut s, 0, 0, vec![]);
    assert_eq!(r.err(), Some(SessionError::Uninitialized(Slot::Warrior)));
}

#[test]
fn move_without_fight_leaves_battle_slot() {
    let mut s = game_with_session();
    let m = WasmMap {};
    let (_, w, _, _) = m.move_player(&mut s, 1, 1, vec![]).unwrap();
    *w -= 10;
    assert_eq!(m.settle_move(&mut s, None), Ok(()));
    assert!(!s.has_battle());
    assert_eq!(m.create_pve_battle(&s).err(), Some(SessionError::NoBattle));
    assert_eq!(m.get_warrior_profile(&s).unwrap(), &90);
}

#[test]
fn scenario_c_second_fight_conflicts() {
    let mut s = game_with_session();
    let m = WasmMap {};
    m.move_player(&mut s, 0, 0, vec![]).unwrap();
    assert_eq!(m.settle_move(&mut s, Some(11)), Ok(()));
    assert!(m.create_pve_battle(&s).is_ok());

    let (_, w, d, _) = m.move_player(&mut s, 1, 0, vec![]).unwrap();
    *w = 60;
    d.push(9);
    assert_eq!(m.settle_move(&mut s, Some(12)), Err(SessionError::Conflict(Slot::Battle)));
    // The second move's effects stay applied; the first battle stays live.
    assert_eq!(m.get_warrior_profile(&s).unwrap(), &60);
    assert_eq!(m.get_warrior_deck_profile(&s).unwrap(), &vec![7, 8, 9]);
    let b = m.create_pve_battle(&s).unwrap();
    assert_eq!(*b.check_peak_target(&mut s).unwrap(), 11);
}

#[test]
fn scenario_d_destroyed_battle_is_gone() {
    let mut s = game_with_session();
    let m = WasmMap {};
    m.move_player(&mut s, 0, 0, vec![]).unwrap();
    m.settle_move(&mut s, Some(11)).unwrap();
    let b = m.create_pve_battle(&s).unwrap();
    let taken = b.destroy(&mut s).unwrap();
    assert_eq!(taken, 11);
    assert_eq!(WasmBattle::restore(&mut s, Ok((70, vec![1]))), Ok(()));
    assert_eq!(m.create_pve_battle(&s).err(), Some(SessionError::NoBattle));
    assert_eq!(m.get_warrior_profile(&s).unwrap(), &70);
    assert_eq!(m.get_warrior_deck_profile(&s).unwrap(), &vec![1]);
}

#[test]
fn battle_operations_without_battle_fail() {
    let mut s: Sess = Session::new();
    let b = WasmBattle {};
    assert_eq!(b.start(&mut s).err(), Some(SessionError::Uninitialized(Slot::Game)));
    assert_eq!(b.iterate(&mut s).err(), Some(SessionError::Uninitialized(Slot::Game)));
    assert_eq!(b.check_peak_target(&mut s).err(), Some(SessionError::NoBattle));
    create_game(&mut s, Ok(vec![])).unwrap();
    assert_eq!(b.start(&mut s).err(), Some(SessionError::NoBattle));
    assert_eq!(b.iterate(&mut s).err(), Some(SessionError::NoBattle));
    assert_eq!(b.destroy(&mut s).err(), Some(SessionError::NoBattle));
    assert!(s.has_game());
    assert!(!s.has_battle());
}

#[test]
fn start_and_iterate_lend_game_and_battle() {
    let mut s: Sess = Session::new();
    create_game(&mut s, Ok(vec![4])).unwrap();
    let b = create_standalone_battle(&mut s, Ok(30)).unwrap();
    let (g, battle) = b.start(&mut s).unwrap();
    g.push(5);
    *battle += 1;
    let (_, battle) = b.iterate(&mut s).unwrap();
    *battle += 1;
    assert_eq!(*b.check_peak_target(&mut s).unwrap(), 32);
    assert_eq!(WasmMap {}.get_profile(&s).unwrap(), &vec![4, 5]);
}

#[test]
fn restore_failure_installs_nothing() {
    let mut s: Sess = Session::new();
    create_standalone_battle(&mut s, Ok(3)).unwrap().destroy(&mut s).unwrap();
    let r = WasmBattle::restore(&mut s, Err("broken".to_string()));
    assert_eq!(r, Err(SessionError::EngineFailure("broken".to_string())));
    assert!(WasmMap {}.get_warrior_profile(&s).is_err());
    assert!(!s.has_battle());
}

#[test]
fn standalone_battle_conflicts_with_live_one() {
    let mut s: Sess = Session::new();
    assert!(create_standalone_battle(&mut s, Ok(1)).is_ok());
    let r = create_standalone_battle(&mut s, Ok(2));
    assert_eq!(r.err(), Some(SessionError::Conflict(Slot::Battle)));
    let r = create_standalone_battle(&mut s, Err("bad enemies".to_string()));
    assert_eq!(r.err(), Some(SessionError::Conflict(Slot::Battle)));
    assert_eq!(*WasmBattle {}.check_peak_target(&mut s).unwrap(), 1);
}

#[test]
fn standalone_battle_engine_failure() {
    let mut s: Sess = Session::new();
    let r = create_standalone_battle(&mut s, Err("bad enemies".to_string()));
    assert_eq!(r.err(), Some(SessionError::EngineFailure("bad enemies".to_string())));
    assert!(!s.has_battle());
}

#[test]
fn get_potion_without_game() {
    let s: Sess = Session::new();
    assert_eq!(WasmGame {}.get_potion(&s).err(), Some(SessionError::Uninitialized(Slot::Game)));
    assert_eq!(WasmMap {}.get_profile(&s).err(), Some(SessionError::Uninitialized(Slot::Game)));
}

fn opening(s: &mut Sess) -> Vec<Result<(), SessionError>> {
    let mut out = Vec::new();
    out.push(create_game(s, Ok(vec![9])).map(|_| ()));
    let g = WasmGame {};
    out.push(g.create_session(s, 1, 0, 0, vec![]).map(|_| ()));
    out.push(g.finish_session(s, Ok((50, vec![2]))));
    let m = g.get_map();
    out.push(m.move_player(s, 1, 0, vec![1]).map(|(_, w, _, _)| *w -= 5));
    out.push(m.settle_move(s, Some(4)));
    out.push(m.move_player(s, 2, 0, vec![]).map(|_| ()));
    out.push(m.settle_move(s, Some(5)));
    out
}

#[test]
fn same_calls_give_same_outcomes() {
    let mut a: Sess = Session::new();
    let mut b: Sess = Session::new();
    let ra = opening(&mut a);
    let rb = opening(&mut b);
    assert_eq!(ra, rb);
    assert_eq!(ra[6], Err(SessionError::Conflict(Slot::Battle)));
    let m = WasmMap {};
    assert_eq!(m.get_warrior_profile(&a).unwrap(), m.get_warrior_profile(&b).unwrap());
    assert_eq!(m.get_warrior_profile(&a).unwrap(), &45);
}
