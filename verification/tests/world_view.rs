//! Tests of world view reconciliation: notification batches applied
//! whole, last notification wins, and local-only movement.

use mortalkin::client::{Client, PollResult};
use mortalkin::messages::{
    Character, CharacterPosition, Direction, GameNotif, LoginResponse, Position, RpcOutcome,
};
use mortalkin::session::AppState;

fn client_on_field() -> Client {
    let mut client = Client::new();
    assert!(client.submit_login(String::from("alice"), b"pw".to_vec()));
    client.login_worker_take().unwrap();
    client.login_worker_finish(RpcOutcome::Success(LoginResponse {
        token: String::from("T1"),
        characters: vec![Character { id: 1, name: String::from("Bob"), position: None }],
    }));
    assert_eq!(client.poll_login(), PollResult::Succeeded);
    assert!(client.choose_play(0));
    client
}

#[test]
fn choose_play_opens_world_at_spawn() {
    let client = client_on_field();
    assert_eq!(client.session.state, AppState::Field);
    assert_eq!(client.session.active_character_id, Some(1));
    let world = client.world.as_ref().expect("world view should be open");
    assert_eq!(world.local_id, 1);
    assert_eq!(world.local_position, Position { x: 2, y: 2 });
    assert!(world.others.is_empty());
}

#[test]
fn position_notif_moves_remote_character_only() {
    let mut client = client_on_field();
    client.push_notif(GameNotif {
        character_on_notifs: vec![],
        character_position_notifs: vec![CharacterPosition {
            character_id: 2,
            position: Some(Position { x: 5, y: 5 }),
        }],
    });
    assert!(client.poll_notif());
    let world = client.world.as_ref().unwrap();
    assert_eq!(world.position_of(2), Some(Position { x: 5, y: 5 }));
    // The locally controlled character is untouched: local-only control.
    assert_eq!(world.local_position, Position { x: 2, y: 2 });
    assert_eq!(world.position_of(1), None);
}

#[test]
fn batch_of_two_updates_lands_whole() {
    let mut client = client_on_field();
    client.push_notif(GameNotif {
        character_on_notifs: vec![],
        character_position_notifs: vec![
            CharacterPosition { character_id: 2, position: Some(Position { x: 5, y: 5 }) },
            CharacterPosition { character_id: 3, position: Some(Position { x: -4, y: 7 }) },
        ],
    });
    assert!(client.poll_notif());
    let world = client.world.as_ref().unwrap();
    assert_eq!(world.others.len(), 2);
    assert_eq!(world.position_of(2), Some(Position { x: 5, y: 5 }));
    assert_eq!(world.position_of(3), Some(Position { x: -4, y: 7 }));
}

#[test]
fn batches_apply_one_at_a_time() {
    let mut client = client_on_field();
    client.push_notif(GameNotif {
        character_on_notifs: vec![],
        character_position_notifs: vec![CharacterPosition {
            character_id: 2,
            position: Some(Position { x: 5, y: 5 }),
        }],
    });
    client.push_notif(GameNotif {
        character_on_notifs: vec![],
        character_position_notifs: vec![CharacterPosition {
            character_id: 2,
            position: Some(Position { x: 6, y: 5 }),
        }],
    });
    // One whole batch per drain, never merged mid-apply.
    assert!(client.poll_notif());
    assert_eq!(
        client.world.as_ref().unwrap().position_of(2),
        Some(Position { x: 5, y: 5 })
    );
    // The last notification wins once its batch is drained.
    assert!(client.poll_notif());
    assert_eq!(
        client.world.as_ref().unwrap().position_of(2),
        Some(Position { x: 6, y: 5 })
    );
    assert_eq!(client.world.as_ref().unwrap().others.len(), 1);
    assert!(!client.poll_notif());
}

#[test]
fn presence_notif_spawns_unseen_character() {
    let mut client = client_on_field();
    client.push_notif(GameNotif {
        character_on_notifs: vec![
            Character { id: 7, name: String::from("Sam"), position: None },
            // A presence report about the local character is ignored.
            Character { id: 1, name: String::from("Bob"), position: Some(Position { x: 9, y: 9 }) },
        ],
        character_position_notifs: vec![],
    });
    assert!(client.poll_notif());
    let world = client.world.as_ref().unwrap();
    // Unseen and without a reported position: spawned at the spawn point.
    assert_eq!(world.position_of(7), Some(Position { x: 2, y: 2 }));
    assert_eq!(world.position_of(1), None);
    assert_eq!(world.local_position, Position { x: 2, y: 2 });
    assert_eq!(world.others.len(), 1);
}

#[test]
fn presence_then_update_in_one_batch_lands_on_update() {
    let mut client = client_on_field();
    client.push_notif(GameNotif {
        character_on_notifs: vec![
            Character { id: 2, name: String::from("Sam"), position: None },
        ],
        character_position_notifs: vec![CharacterPosition {
            character_id: 2,
            position: Some(Position { x: 5, y: 5 }),
        }],
    });
    assert!(client.poll_notif());
    let world = client.world.as_ref().unwrap();
    // One character, reported twice in one batch: created once, and the
    // later entry of the batch wins.
    assert_eq!(world.others.len(), 1);
    assert_eq!(world.position_of(2), Some(Position { x: 5, y: 5 }));
}

#[test]
fn empty_batch_changes_nothing() {
    let mut client = client_on_field();
    client.push_notif(GameNotif { character_on_notifs: vec![], character_position_notifs: vec![] });
    assert!(client.poll_notif());
    let world = client.world.as_ref().unwrap();
    assert_eq!(world.others.len(), 0);
    assert_eq!(world.local_position, Position { x: 2, y: 2 });
    assert!(!client.poll_notif());
}

#[test]
fn poll_notif_off_field_or_empty_is_a_noop() {
    let mut client = Client::new();
    assert!(!client.poll_notif());
    let mut client = client_on_field();
    assert!(!client.poll_notif());
    assert_eq!(client.world.as_ref().unwrap().others.len(), 0);
}

#[test]
fn movement_steps_one_cell_in_each_direction() {
    let cases = [
        (Direction::North, 2, 3),
        (Direction::NorthEast, 3, 3),
        (Direction::East, 3, 2),
        (Direction::SouthEast, 3, 1),
        (Direction::South, 2, 1),
        (Direction::SouthWest, 1, 1),
        (Direction::West, 1, 2),
        (Direction::NorthWest, 1, 3),
    ];
    for (direction, x, y) in cases {
        let mut client = client_on_field();
        assert!(client.move_local(direction));
        assert_eq!(
            client.world.as_ref().unwrap().local_position,
            Position { x, y }
        );
    }
}

#[test]
fn movement_off_field_is_rejected() {
    let mut client = Client::new();
    assert!(!client.move_local(Direction::North));
    assert_eq!(client.session.state, AppState::MainMenu);
}
