//! Tests of the request/response bridge: at most one request in flight
//! per RPC kind, FIFO delivery, one result per request, and the
//! idempotent non-blocking drain.

use mortalkin::channel::Channel;
use mortalkin::client::{Client, PollResult};
use mortalkin::messages::{LoginResponse, PlayGamePayload, Position, RpcFailure, RpcOutcome};
use mortalkin::session::AppState;

#[test]
fn channel_is_fifo() {
    let mut q: Channel<u32> = Channel::new();
    assert!(q.is_empty());
    q.send(10);
    q.send(20);
    q.send(30);
    assert_eq!(q.len(), 3);
    assert_eq!(q.try_recv(), Some(10));
    assert_eq!(q.try_recv(), Some(20));
    assert_eq!(q.try_recv(), Some(30));
    assert_eq!(q.try_recv(), None);
}

#[test]
fn second_submit_while_pending_is_rejected() {
    let mut client = Client::new();
    assert!(client.submit_login(String::from("alice"), b"pw".to_vec()));
    // A request is in flight: further submissions are no-ops.
    assert!(!client.submit_login(String::from("alice"), b"pw".to_vec()));
    assert!(!client.submit_login(String::from("carol"), b"zz".to_vec()));
    // The worker sees exactly one request.
    assert!(client.login_worker_take().is_some());
    assert!(client.login_worker_take().is_none());
    // Still in flight while being served, and while resulted but undrained.
    assert!(!client.submit_login(String::from("alice"), b"pw".to_vec()));
    client.login_worker_finish(RpcOutcome::Failure(RpcFailure::TransportFailure));
    assert!(!client.submit_login(String::from("alice"), b"pw".to_vec()));
    // Drained: the kind is free again.
    assert_eq!(client.poll_login(), PollResult::Failed(RpcFailure::TransportFailure));
    assert!(client.submit_login(String::from("alice"), b"pw".to_vec()));
}

#[test]
fn results_drain_in_submission_order() {
    let mut client = Client::new();
    // First exchange: fails, so the session stays submittable.
    assert!(client.submit_login(String::from("first"), b"1".to_vec()));
    let p1 = client.login_worker_take().unwrap();
    assert_eq!(p1.username, "first");
    client.login_worker_finish(RpcOutcome::Failure(RpcFailure::RejectedByServer));
    assert_eq!(client.poll_login(), PollResult::Failed(RpcFailure::RejectedByServer));
    // Second exchange, submitted only after the first result was drained.
    assert!(client.submit_login(String::from("second"), b"2".to_vec()));
    let p2 = client.login_worker_take().unwrap();
    assert_eq!(p2.username, "second");
    client.login_worker_finish(RpcOutcome::Success(LoginResponse {
        token: String::from("T2"),
        characters: vec![],
    }));
    assert_eq!(client.poll_login(), PollResult::Succeeded);
    assert_eq!(client.session.token.as_ref().unwrap().token, "T2");
}

#[test]
fn drain_with_nothing_queued_is_a_noop() {
    let mut client = Client::new();
    assert_eq!(client.poll_login(), PollResult::NotReady);
    assert_eq!(client.poll_create(), PollResult::NotReady);
    assert_eq!(client.session.state, AppState::MainMenu);
    assert!(client.session.token.is_none());
    assert!(!client.session.login_pending);
    assert!(!client.session.create_pending);
    // Draining repeatedly changes nothing either.
    assert_eq!(client.poll_login(), PollResult::NotReady);
    assert_eq!(client.session.state, AppState::MainMenu);
    // The same holds while a request is in flight but not yet resulted.
    assert!(client.submit_login(String::from("alice"), b"pw".to_vec()));
    assert_eq!(client.poll_login(), PollResult::NotReady);
    assert!(client.session.login_pending);
    assert_eq!(client.session.state, AppState::MainMenu);
}

#[test]
fn outbound_tick_pops_at_most_one_in_order() {
    let mut client = Client::new();
    assert!(client.outbound_tick().is_none());
    assert!(client.submit_login(String::from("alice"), b"pw".to_vec()));
    client.login_worker_take().unwrap();
    client.login_worker_finish(RpcOutcome::Success(LoginResponse {
        token: String::from("T1"),
        characters: vec![
            mortalkin::messages::Character { id: 1, name: String::from("Bob"), position: None },
        ],
    }));
    assert_eq!(client.poll_login(), PollResult::Succeeded);
    assert!(client.choose_play(0));
    // The join message is queued; one tick yields it, the next yields
    // nothing.
    let join = client.outbound_tick().expect("join message should be queued");
    assert_eq!(join.token, "T1");
    assert_eq!(join.character_id, 1);
    assert!(join.position.is_none());
    assert!(client.outbound_tick().is_none());
}

#[test]
fn outbound_stream_preserves_submission_order() {
    let mut client = Client::new();
    client.send_play_message(PlayGamePayload {
        token: String::from("T1"),
        character_id: 1,
        position: Some(Position { x: 2, y: 3 }),
    });
    client.send_play_message(PlayGamePayload {
        token: String::from("T1"),
        character_id: 1,
        position: Some(Position { x: 2, y: 4 }),
    });
    // One message per tick, in submission order.
    assert_eq!(client.outbound_tick().unwrap().position, Some(Position { x: 2, y: 3 }));
    assert_eq!(client.outbound_tick().unwrap().position, Some(Position { x: 2, y: 4 }));
    assert!(client.outbound_tick().is_none());
}
