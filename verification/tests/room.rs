use game_of_estimates::player::PlayerInformation;
use game_of_estimates::room::{
    GamePlayer, GamePlayerMessage, GameState, PlayerState, Room, RoomEffect, RoomEvent,
    RoomMessage,
};

fn new_room() -> Room {
    Room::new("TEST-ROOM", "TEST-DECK".to_string()).0
}

fn join_player(room: &mut Room, id: &str, voter: bool) -> Vec<RoomEffect> {
    room.on_message(RoomMessage::JoinRequest(PlayerInformation {
        id: id.to_string(),
        voter,
        name: None,
    }))
}

fn send_vote(room: &mut Room, player: &str, vote: Option<&str>) -> Vec<RoomEffect> {
    room.on_message(RoomMessage::PlayerVoted(
        player.to_string(),
        vote.map(|v| v.to_string()),
    ))
}

/// The states of the round that were sent to `player`, in order.
fn states_sent_to(effects: &[RoomEffect], player: &str) -> Vec<GameState> {
    let mut states = vec![];
    for effect in effects {
        if let RoomEffect::Send(to, GamePlayerMessage::GameStateChanged(state)) = effect {
            if to == player {
                states.push(state.clone());
            }
        }
    }
    states
}

fn vote_of(state: &GameState, player: &str) -> Option<Option<String>> {
    state
        .votes
        .iter()
        .find(|(id, _)| id == player)
        .map(|(_, vote)| vote.clone())
}

#[test]
fn check_open_when_all_voted() {
    let mut room = new_room();
    let mut sent = vec![];
    sent.extend(join_player(&mut room, "1", true));
    sent.extend(join_player(&mut room, "2", true));

    sent.extend(send_vote(&mut room, "1", Some("VOTE")));
    sent.extend(send_vote(&mut room, "2", Some("VOTE")));
    sent.extend(room.on_message(RoomMessage::Close));

    assert!(states_sent_to(&sent, "1").iter().any(|state| state.open == true));
}

#[test]
fn check_open_with_non_voter() {
    let mut room = new_room();
    let mut sent = vec![];
    sent.extend(join_player(&mut room, "1", true));
    sent.extend(join_player(&mut room, "2", true));
    sent.extend(join_player(&mut room, "3", false));

    sent.extend(send_vote(&mut room, "1", Some("VOTE")));
    sent.extend(send_vote(&mut room, "2", Some("VOTE")));
    sent.extend(room.on_message(RoomMessage::Close));

    assert!(states_sent_to(&sent, "1").iter().any(|state| state.open == true));
}

#[test]
fn check_open_after_player_became_non_voter() {
    let mut room = new_room();
    let mut sent = vec![];
    sent.extend(join_player(&mut room, "1", true));
    sent.extend(join_player(&mut room, "2", true));
    sent.extend(join_player(&mut room, "3", true));

    sent.extend(send_vote(&mut room, "1", Some("VOTE")));
    sent.extend(send_vote(&mut room, "3", Some("VOTE")));
    sent.extend(room.on_message(RoomMessage::UpdatePlayer {
        id: "2".to_string(),
        voter: false,
        name: None,
    }));
    sent.extend(room.on_message(RoomMessage::Close));

    assert!(states_sent_to(&sent, "1").iter().any(|state| state.open == true));
}

#[test]
fn check_open_after_player_left() {
    let mut room = new_room();
    let mut sent = vec![];
    sent.extend(join_player(&mut room, "1", true));
    sent.extend(join_player(&mut room, "2", true));
    sent.extend(join_player(&mut room, "3", true));

    sent.extend(send_vote(&mut room, "1", Some("VOTE")));
    sent.extend(send_vote(&mut room, "3", Some("VOTE")));
    sent.extend(room.on_message(RoomMessage::PlayerLeft("2".to_string())));
    sent.extend(room.on_message(RoomMessage::Close));

    assert!(states_sent_to(&sent, "1").iter().any(|state| state.open == true));
}

#[test]
fn check_no_voting_when_closed() {
    let mut room = new_room();
    let mut sent = vec![];
    sent.extend(join_player(&mut room, "r1", true));
    sent.extend(join_player(&mut room, "p1", true));

    sent.extend(room.on_message(RoomMessage::ForceOpen));
    sent.extend(send_vote(&mut room, "p1", Some("VOTE")));
    sent.extend(room.on_message(RoomMessage::Close));

    assert!(!states_sent_to(&sent, "r1")
        .iter()
        .any(|state| vote_of(state, "p1").flatten().is_some()));
}

#[test]
fn new_room_is_empty_and_closed_and_logs_its_creation() {
    let (room, event) = Room::new("R", "fibonacci".to_string());
    assert_eq!(room.id(), "R");
    assert_eq!(room.deck(), "fibonacci");
    assert!(!room.is_open());
    assert!(room.is_empty());
    assert_eq!(
        event,
        RoomEvent::Created {
            deck: "fibonacci".to_string()
        }
    );
}

fn info(id: &str, voter: bool) -> PlayerInformation {
    PlayerInformation {
        id: id.to_string(),
        voter,
        name: None,
    }
}

fn state(deck: &str, open: bool, votes: &[(&str, Option<&str>)]) -> GameState {
    GameState {
        deck: deck.to_string(),
        open,
        votes: votes
            .iter()
            .map(|(id, vote)| (id.to_string(), vote.map(|v| v.to_string())))
            .collect(),
    }
}

fn player_state(id: &str, name: Option<&str>, voter: bool) -> PlayerState {
    PlayerState {
        id: id.to_string(),
        name: name.map(|n| n.to_string()),
        voter,
    }
}

fn changed(to: &str, state: GameState) -> RoomEffect {
    RoomEffect::Send(to.to_string(), GamePlayerMessage::GameStateChanged(state))
}

fn fibonacci_room(players: &[(&str, bool)]) -> Room {
    let (mut room, _) = Room::new("R", "fibonacci".to_string());
    for (id, voter) in players {
        room.add_player(info(id, *voter));
    }
    room
}

#[test]
fn reveal_on_all_voted() {
    let mut room = fibonacci_room(&[("p1", true), ("p2", true)]);

    let first = send_vote(&mut room, "p1", Some("3"));
    let hidden = state("fibonacci", false, &[("p1", Some("?")), ("p2", None)]);
    assert_eq!(
        first,
        vec![changed("p1", hidden.clone()), changed("p2", hidden)]
    );
    assert!(!room.is_open());

    let last = send_vote(&mut room, "p2", Some("5"));
    let shown = state("fibonacci", true, &[("p1", Some("3")), ("p2", Some("5"))]);
    assert_eq!(last, vec![changed("p1", shown.clone()), changed("p2", shown)]);
    assert!(room.is_open());
}

#[test]
fn non_voter_does_not_gate_reveal() {
    let mut room = fibonacci_room(&[("p1", true), ("p2", true), ("p3", false)]);
    send_vote(&mut room, "p1", Some("2"));
    let last = send_vote(&mut room, "p2", Some("2"));

    let shown = state("fibonacci", true, &[("p1", Some("2")), ("p2", Some("2"))]);
    assert_eq!(
        last,
        vec![
            changed("p1", shown.clone()),
            changed("p2", shown.clone()),
            changed("p3", shown.clone())
        ]
    );
    assert_eq!(vote_of(&shown, "p3"), None);
    assert_eq!(room.to_state(), shown);
}

#[test]
fn reveal_triggered_by_non_voter_conversion() {
    let mut room = fibonacci_room(&[("p1", true), ("p2", true), ("p3", true)]);
    send_vote(&mut room, "p1", Some("1"));
    send_vote(&mut room, "p3", Some("1"));
    assert!(!room.is_open());

    let effects = room.on_message(RoomMessage::UpdatePlayer {
        id: "p2".to_string(),
        voter: false,
        name: None,
    });

    let shown = state("fibonacci", true, &[("p1", Some("1")), ("p3", Some("1"))]);
    let p2 = player_state("p2", None, false);
    assert_eq!(
        effects,
        vec![
            RoomEffect::Send("p1".to_string(), GamePlayerMessage::PlayerChanged(p2.clone())),
            RoomEffect::Send("p2".to_string(), GamePlayerMessage::PlayerChanged(p2.clone())),
            RoomEffect::Send("p3".to_string(), GamePlayerMessage::PlayerChanged(p2.clone())),
            changed("p1", shown.clone()),
            changed("p2", shown.clone()),
            changed("p3", shown),
        ]
    );
    assert!(room.is_open());
}

#[test]
fn vote_ignored_after_force_open() {
    let mut room = fibonacci_room(&[("p1", true), ("p2", true)]);
    let forced = room.on_message(RoomMessage::ForceOpen);
    let snapshot = state("fibonacci", true, &[("p1", None), ("p2", None)]);
    assert_eq!(
        forced,
        vec![changed("p1", snapshot.clone()), changed("p2", snapshot.clone())]
    );

    assert_eq!(send_vote(&mut room, "p1", Some("8")), vec![]);
    assert_eq!(room.to_state(), snapshot);
    assert_eq!(room.on_message(RoomMessage::ForceOpen), vec![]);
}

#[test]
fn restore_after_restart() {
    let events = vec![
        RoomEvent::Created {
            deck: "t-shirt-sizes".to_string(),
        },
        RoomEvent::PlayerJoined {
            player_id: "p1".to_string(),
        },
        RoomEvent::PlayerLeft {
            player_id: "p1".to_string(),
        },
    ];
    let room = Room::restore("R", events).unwrap();
    assert_eq!(room.id(), "R");
    assert_eq!(room.deck(), "t-shirt-sizes");
    assert!(room.is_empty());
    assert!(room.players().is_empty());
    assert!(!room.is_open());
}

#[test]
fn restore_wants_one_creation_and_wants_it_first() {
    let created = |deck: &str| RoomEvent::Created {
        deck: deck.to_string(),
    };
    let joined = RoomEvent::PlayerJoined {
        player_id: "p1".to_string(),
    };
    assert_eq!(Room::restore("R", vec![]), None);
    assert_eq!(Room::restore("R", vec![joined.clone()]), None);
    assert_eq!(Room::restore("R", vec![joined.clone(), created("a")]), None);
    assert_eq!(Room::restore("R", vec![created("a"), created("a")]), None);
    assert_eq!(
        Room::restore("R", vec![created("a"), joined.clone(), created("b")]),
        None
    );
    assert_eq!(
        Room::restore("R", vec![created("a")]).map(|r| r.deck().to_string()),
        Some("a".to_string())
    );
    assert!(Room::restore("R", vec![created("a"), joined.clone(), joined]).is_some());
}

#[test]
fn single_voter_never_reveals() {
    let mut room = fibonacci_room(&[("p1", true), ("p2", false)]);
    for vote in [Some("1"), None, Some("2"), Some("3")] {
        let effects = send_vote(&mut room, "p1", vote);
        assert_eq!(effects.len(), 2);
        assert!(!room.is_open());
        assert!(states_sent_to(&effects, "p1").iter().all(|s| !s.open));
    }
    assert_eq!(send_vote(&mut room, "p2", Some("1")), vec![]);
    assert!(!room.is_open());
}

#[test]
fn taking_a_vote_back_keeps_the_room_closed() {
    let mut room = fibonacci_room(&[("p1", true), ("p2", true)]);
    send_vote(&mut room, "p1", Some("3"));
    send_vote(&mut room, "p1", None);
    let effects = send_vote(&mut room, "p2", Some("5"));
    let hidden = state("fibonacci", false, &[("p1", None), ("p2", Some("?"))]);
    assert_eq!(
        effects,
        vec![changed("p1", hidden.clone()), changed("p2", hidden)]
    );
}

#[test]
fn hidden_votes_are_never_sent() {
    let mut room = fibonacci_room(&[("p1", true), ("p2", true), ("p3", true)]);
    let mut sent = vec![];
    sent.extend(send_vote(&mut room, "p1", Some("13")));
    sent.extend(send_vote(&mut room, "p2", Some("21")));
    sent.extend(room.add_player(info("p4", true)));
    sent.extend(room.remove_player("p4"));
    for effect in &sent {
        let shown = match effect {
            RoomEffect::Send(_, GamePlayerMessage::GameStateChanged(state)) => Some(state),
            RoomEffect::Send(_, GamePlayerMessage::Welcome(_, state, _)) => Some(state),
            _ => None,
        };
        if let Some(state) = shown {
            assert!(!state.open);
            for (_, vote) in &state.votes {
                assert!(vote.is_none() || vote.as_deref() == Some("?"));
            }
        }
    }
}

#[test]
fn restart_clears_votes_and_closes() {
    let mut room = fibonacci_room(&[("p1", true), ("p2", true)]);
    send_vote(&mut room, "p1", Some("3"));
    send_vote(&mut room, "p2", Some("5"));
    assert!(room.is_open());

    let effects = room.on_message(RoomMessage::Restart);
    let cleared = state("fibonacci", false, &[("p1", None), ("p2", None)]);
    assert_eq!(
        effects,
        vec![changed("p1", cleared.clone()), changed("p2", cleared)]
    );
    assert!(!room.is_open());
    assert!(room.players().iter().all(|p| p.vote.is_none()));
}

#[test]
fn welcome_lists_the_membership_with_the_joiner() {
    let mut room = fibonacci_room(&[("p1", true)]);
    let effects = room.add_player(PlayerInformation {
        id: "p2".to_string(),
        voter: false,
        name: Some("Ann".to_string()),
    });
    let p2 = player_state("p2", Some("Ann"), false);
    assert_eq!(
        effects,
        vec![
            RoomEffect::Append(RoomEvent::PlayerJoined {
                player_id: "p2".to_string()
            }),
            RoomEffect::Send(
                "p2".to_string(),
                GamePlayerMessage::Welcome(
                    "R".to_string(),
                    state("fibonacci", false, &[("p1", None)]),
                    vec![player_state("p1", None, true), p2.clone()],
                )
            ),
            RoomEffect::Send("p1".to_string(), GamePlayerMessage::PlayerJoined(p2)),
        ]
    );
}

#[test]
fn joining_again_takes_the_old_place_and_clears_the_vote() {
    let mut room = fibonacci_room(&[("p1", true), ("p2", true)]);
    send_vote(&mut room, "p1", Some("3"));
    room.add_player(PlayerInformation {
        id: "p1".to_string(),
        voter: true,
        name: Some("Bo".to_string()),
    });
    assert_eq!(
        room.roster(),
        vec![
            player_state("p1", Some("Bo"), true),
            player_state("p2", None, true)
        ]
    );
    assert_eq!(
        room.to_state(),
        state("fibonacci", false, &[("p1", None), ("p2", None)])
    );
}

#[test]
fn vote_of_a_stranger_is_ignored() {
    let mut room = fibonacci_room(&[("p1", true), ("p2", true)]);
    let before = room.to_state();
    assert_eq!(send_vote(&mut room, "nobody", Some("3")), vec![]);
    assert_eq!(room.to_state(), before);
    assert_eq!(room.players().len(), 2);
}

#[test]
fn update_of_a_stranger_is_ignored() {
    let mut room = fibonacci_room(&[("p1", true)]);
    assert_eq!(
        room.update_player("nobody", Some("x".to_string()), true),
        vec![]
    );
    assert_eq!(room.roster(), vec![player_state("p1", None, true)]);
}

#[test]
fn leaving_logs_tells_the_others_and_arms_the_timer_when_empty() {
    let mut room = fibonacci_room(&[("p1", true), ("p2", true)]);
    assert_eq!(
        room.on_message(RoomMessage::PlayerLeft("p1".to_string())),
        vec![
            RoomEffect::Append(RoomEvent::PlayerLeft {
                player_id: "p1".to_string()
            }),
            RoomEffect::Send(
                "p2".to_string(),
                GamePlayerMessage::PlayerLeft("p1".to_string())
            ),
        ]
    );
    assert_eq!(
        room.on_message(RoomMessage::PlayerLeft("p2".to_string())),
        vec![
            RoomEffect::Append(RoomEvent::PlayerLeft {
                player_id: "p2".to_string()
            }),
            RoomEffect::CloseLater(300),
        ]
    );
    assert!(room.is_empty());
}

#[test]
fn idle_timer_stops_only_an_empty_room() {
    let mut room = fibonacci_room(&[("p1", true)]);
    room.remove_player("p1");
    room.add_player(info("p2", true));
    assert_eq!(room.on_message(RoomMessage::CloseWhenEmpty), vec![]);
    room.remove_player("p2");
    assert_eq!(
        room.on_message(RoomMessage::CloseWhenEmpty),
        vec![RoomEffect::Quit]
    );
    assert_eq!(room.on_message(RoomMessage::Close), vec![RoomEffect::Quit]);
}

#[test]
fn setup_welcomes_every_member() {
    let room = fibonacci_room(&[("p1", true), ("p2", false)]);
    let welcome = GamePlayerMessage::Welcome(
        "R".to_string(),
        state("fibonacci", false, &[("p1", None)]),
        vec![player_state("p1", None, true), player_state("p2", None, false)],
    );
    assert_eq!(
        room.setup(),
        vec![
            RoomEffect::Send("p1".to_string(), welcome.clone()),
            RoomEffect::Send("p2".to_string(), welcome),
        ]
    );
    assert_eq!(Room::new("E", "d".to_string()).0.setup(), vec![]);
}

#[test]
fn update_state_reports_a_change_once() {
    let mut room = fibonacci_room(&[("p1", true), ("p2", true)]);
    assert!(!room.update_state());
    send_vote(&mut room, "p1", Some("1"));
    send_vote(&mut room, "p2", Some("1"));
    assert!(room.is_open());
    assert!(!room.update_state());
    // a leave that changes nothing of the reveal tells nothing of the round
    room.add_player(info("p3", false));
    let effects = room.remove_player("p3");
    assert!(states_sent_to(&effects, "p1").is_empty());
}

#[test]
fn game_player_starts_without_vote() {
    let player = GamePlayer::new(PlayerInformation {
        id: "p1".to_string(),
        voter: true,
        name: Some("Ann".to_string()),
    });
    assert_eq!(player.vote, None);
    assert_eq!(player.to_state(), player_state("p1", Some("Ann"), true));
}

#[test]
fn room_ids_are_short_url_safe_and_fresh() {
    let a = Room::gen_id();
    let b = Room::gen_id();
    assert_eq!(a.len(), 22);
    assert!(a
        .chars()
        .all(|c| c.is_ascii_alphanumeric() || c == '-' || c == '_'));
    assert_ne!(a, b);
}
