use land_battle_chess::lobby::{lookup_response, JoinOutcome, Lobby};
use land_battle_chess::types::{normalize_flag, AppResponse};

fn s(t: &str) -> String {
    t.to_string()
}

#[test]
fn two_players_with_one_code_are_matched() {
    let mut l = Lobby::new();
    let first = l.join_with_id(s("alice"), s("123"), 77);
    assert_eq!(first, JoinOutcome::Waiting);
    assert_eq!(first.response(), (200, AppResponse::JoinResult { game_id: 0 }));
    let second = l.join_with_id(s("bob"), s("123"), 77);
    assert_eq!(second, JoinOutcome::Matched { game_id: 77, player1: s("alice"), player2: s("bob") });
    assert_eq!(second.response(), (200, AppResponse::JoinResult { game_id: 77 }));
    assert_eq!(l.join_get(&s("alice")), Some(77));
    assert_eq!(l.join_get(&s("bob")), Some(77));
    assert!(l.enter_game(&s("alice"), 77));
    assert!(l.enter_game(&s("bob"), 77));
    assert!(!l.enter_game(&s("carol"), 77));
    assert!(!l.enter_game(&s("alice"), 78));
}

#[test]
fn rejoining_alone_is_an_update() {
    let mut l = Lobby::new();
    l.join_with_id(s("alice"), s("123"), 1);
    assert_eq!(l.join_with_id(s("alice"), s("123"), 1), JoinOutcome::Updated);
    assert_eq!(l.join_get(&s("alice")), Some(0));
}

#[test]
fn formed_match_refuses_more_joins() {
    let mut l = Lobby::new();
    l.join_with_id(s("alice"), s("123"), 5);
    l.join_with_id(s("bob"), s("123"), 5);
    let again = l.join_with_id(s("alice"), s("123"), 6);
    assert_eq!(again, JoinOutcome::GameStarted);
    assert_eq!(again.response(), (409, AppResponse::Error(s("game started"))));
    let third = l.join_with_id(s("carol"), s("123"), 6);
    assert_eq!(third, JoinOutcome::CodeUsed);
    assert_eq!(third.response(), (400, AppResponse::Error(s("access code used"))));
    assert_eq!(l.join_get(&s("carol")), None);
}

#[test]
fn codes_are_independent() {
    let mut l = Lobby::new();
    assert_eq!(l.join_with_id(s("alice"), s("a"), 1), JoinOutcome::Waiting);
    assert_eq!(l.join_with_id(s("bob"), s("b"), 2), JoinOutcome::Waiting);
    assert_eq!(l.join_get(&s("bob")), Some(0));
    assert!(!l.enter_game(&s("bob"), 2));
}

#[test]
fn random_ids_match_both_players() {
    let mut l = Lobby::new();
    assert_eq!(l.join(s("alice"), s("xyz")), JoinOutcome::Waiting);
    match l.join(s("bob"), s("xyz")) {
        JoinOutcome::Matched { game_id, player1, player2 } => {
            assert_eq!((player1.as_str(), player2.as_str()), ("alice", "bob"));
            assert_eq!(l.join_get(&s("alice")), Some(game_id));
            assert!(l.enter_game(&s("bob"), game_id));
        }
        other => panic!("unexpected {:?}", other),
    }
}

#[test]
fn unknown_player_lookup() {
    let l = Lobby::new();
    assert_eq!(l.join_get(&s("nobody")), None);
    assert_eq!(lookup_response(None), (400, AppResponse::Error(s("user not found"))));
    assert_eq!(lookup_response(Some(3)), (200, AppResponse::JoinResult { game_id: 3 }));
}

#[test]
fn flag_sentinel_reads_as_none() {
    assert_eq!(normalize_flag(Some(5), Some(12)), (None, None));
    assert_eq!(normalize_flag(None, None), (None, None));
    assert_eq!(normalize_flag(Some(0), Some(0)), (Some(0), Some(0)));
    assert_eq!(normalize_flag(Some(5), None), (Some(5), None));
    assert_eq!(normalize_flag(Some(5), Some(11)), (Some(5), Some(11)));
}

#[test]
fn match_ids_are_nonzero_and_fresh() {
    let mut l = Lobby::new();
    l.join_with_id(s("a1"), s("one"), 0);
    // a zero draw takes the least free nonzero id
    assert_eq!(
        l.join_with_id(s("a2"), s("one"), 0),
        JoinOutcome::Matched { game_id: 1, player1: s("a1"), player2: s("a2") }
    );
    l.join_with_id(s("b1"), s("two"), 1);
    // a draw that names a live match moves to the least free id
    assert_eq!(
        l.join_with_id(s("b2"), s("two"), 1),
        JoinOutcome::Matched { game_id: 2, player1: s("b1"), player2: s("b2") }
    );
    l.join_with_id(s("c1"), s("three"), 9);
    assert_eq!(
        l.join_with_id(s("c2"), s("three"), 9),
        JoinOutcome::Matched { game_id: 9, player1: s("c1"), player2: s("c2") }
    );
    assert_eq!(l.game_count(), 3);
    assert!(l.enter_game(&s("a1"), 1));
    assert!(l.enter_game(&s("b2"), 2));
    assert!(l.enter_game(&s("c1"), 9));
}
