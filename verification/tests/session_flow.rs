//! Scenario tests for the session state machine driven through the
//! client: login, character creation, and the failure paths.

use mortalkin::client::{Client, PollResult};
use mortalkin::messages::{Character, LoginResponse, Position, RpcFailure, RpcOutcome};
use mortalkin::session::AppState;

fn logged_in_client() -> Client {
    let mut client = Client::new();
    assert!(client.submit_login(String::from("alice"), b"pw".to_vec()));
    let payload = client.login_worker_take().expect("worker should see the request");
    assert_eq!(payload.username, "alice");
    assert_eq!(payload.password, b"pw".to_vec());
    client.login_worker_finish(RpcOutcome::Success(LoginResponse {
        token: String::from("T1"),
        characters: vec![Character { id: 1, name: String::from("Bob"), position: None }],
    }));
    assert_eq!(client.poll_login(), PollResult::Succeeded);
    client
}

#[test]
fn login_success_reaches_char_selection() {
    let client = logged_in_client();
    assert_eq!(client.session.state, AppState::CharSelectionMenu);
    assert_eq!(client.session.token.as_ref().unwrap().token, "T1");
    let owned = &client.session.characters.characters;
    assert_eq!(owned.len(), 1);
    assert_eq!(owned[0].id, 1);
    assert_eq!(owned[0].name, "Bob");
    assert!(owned[0].position.is_none());
    assert!(!client.session.login_pending);
}

#[test]
fn create_character_appends_to_owned_set() {
    let mut client = logged_in_client();
    assert!(client.choose_create());
    assert_eq!(client.session.state, AppState::CharCreationMenu);
    assert!(client.submit_create(String::from("Eve")));
    let payload = client.create_worker_take().expect("worker should see the request");
    assert_eq!(payload.token, "T1");
    assert_eq!(payload.name, "Eve");
    client.create_worker_finish(RpcOutcome::Success(Character {
        id: 2,
        name: String::from("Eve"),
        position: None,
    }));
    assert_eq!(client.poll_create(), PollResult::Succeeded);
    assert_eq!(client.session.state, AppState::CharSelectionMenu);
    let owned = &client.session.characters.characters;
    assert_eq!(owned.len(), 2);
    assert_eq!(owned[0].id, 1);
    assert_eq!(owned[0].name, "Bob");
    assert_eq!(owned[1].id, 2);
    assert_eq!(owned[1].name, "Eve");
}

#[test]
fn login_stores_characters_without_positions() {
    let mut client = Client::new();
    assert!(client.submit_login(String::from("alice"), b"pw".to_vec()));
    client.login_worker_take().unwrap();
    client.login_worker_finish(RpcOutcome::Success(LoginResponse {
        token: String::from("T9"),
        characters: vec![
            Character { id: 4, name: String::from("Ann"), position: Some(Position { x: 8, y: 9 }) },
            Character { id: 5, name: String::from("Ben"), position: None },
        ],
    }));
    assert_eq!(client.poll_login(), PollResult::Succeeded);
    let owned = &client.session.characters.characters;
    assert_eq!(owned.len(), 2);
    // The identities are kept; the last-known positions start unknown.
    assert_eq!(owned[0].id, 4);
    assert_eq!(owned[0].name, "Ann");
    assert!(owned[0].position.is_none());
    assert_eq!(owned[1].id, 5);
    assert!(owned[1].position.is_none());
}

#[test]
fn login_failure_stays_on_main_menu() {
    let mut client = Client::new();
    assert!(client.submit_login(String::from("alice"), b"bad".to_vec()));
    client.login_worker_take().expect("worker should see the request");
    client.login_worker_finish(RpcOutcome::Failure(RpcFailure::RejectedByServer));
    assert_eq!(client.poll_login(), PollResult::Failed(RpcFailure::RejectedByServer));
    assert_eq!(client.session.state, AppState::MainMenu);
    assert!(client.session.token.is_none());
    assert!(client.session.characters.characters.is_empty());
    assert!(!client.session.login_pending);
    // The screen is resubmittable after the failure.
    assert!(client.submit_login(String::from("alice"), b"pw".to_vec()));
}

#[test]
fn transport_failure_is_kept_apart_from_rejection() {
    let mut client = Client::new();
    assert!(client.submit_login(String::from("alice"), b"pw".to_vec()));
    client.login_worker_take().unwrap();
    client.login_worker_finish(RpcOutcome::Failure(RpcFailure::TransportFailure));
    assert_eq!(client.poll_login(), PollResult::Failed(RpcFailure::TransportFailure));
    assert_eq!(client.session.state, AppState::MainMenu);
}

#[test]
fn create_failure_stays_on_creation_screen() {
    let mut client = logged_in_client();
    assert!(client.choose_create());
    assert!(client.submit_create(String::from("Eve")));
    client.create_worker_take().unwrap();
    client.create_worker_finish(RpcOutcome::Failure(RpcFailure::RejectedByServer));
    assert_eq!(client.poll_create(), PollResult::Failed(RpcFailure::RejectedByServer));
    assert_eq!(client.session.state, AppState::CharCreationMenu);
    assert_eq!(client.session.characters.characters.len(), 1);
    // The screen is resubmittable after the failure.
    assert!(client.submit_create(String::from("Eve")));
}

#[test]
fn submissions_rejected_on_wrong_screen() {
    let mut client = Client::new();
    // No creation from the main menu.
    assert!(!client.submit_create(String::from("Eve")));
    assert!(!client.choose_create());
    assert!(!client.choose_play(0));
    let mut client = logged_in_client();
    // No login from character selection.
    assert!(!client.submit_login(String::from("alice"), b"pw".to_vec()));
    assert_eq!(client.session.state, AppState::CharSelectionMenu);
}

#[test]
fn creation_rejected_once_slots_are_full() {
    let mut client = logged_in_client();
    for id in 2..4 {
        assert!(client.choose_create());
        assert!(client.submit_create(format!("c{}", id)));
        client.create_worker_take().unwrap();
        client.create_worker_finish(RpcOutcome::Success(Character {
            id,
            name: format!("c{}", id),
            position: None,
        }));
        assert_eq!(client.poll_create(), PollResult::Succeeded);
    }
    assert_eq!(client.session.characters.characters.len(), 3);
    // All three slots taken: no further creation.
    assert!(!client.choose_create());
    assert_eq!(client.session.state, AppState::CharSelectionMenu);
}

#[test]
fn choose_play_rejected_for_unowned_slot() {
    let mut client = logged_in_client();
    assert!(!client.choose_play(1));
    assert_eq!(client.session.state, AppState::CharSelectionMenu);
    assert!(client.world.is_none());
}
