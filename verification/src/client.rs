//! The whole client core in one place.
//!
//! A [`Client`] composes the session state machine, the request/response
//! queue pair of each unary RPC kind, the outbound and inbound queues of
//! the play stream, and the world view.  In the running program the
//! queues are shared with worker threads; here both ends are modeled
//! together, so that the flow-control invariant — per RPC kind, at most
//! one request submitted and not yet drained, and so at most one request
//! a worker can ever see outstanding — is stated and proved over the
//! whole exchange.
//!
//! The render loop calls [`Client::submit_login`], [`Client::poll_login`]
//! and their character-creation counterparts, plus the play-stream
//! operations; a worker's receive and reply are [`Client::login_worker_take`]
//! and [`Client::login_worker_finish`] (and the creation counterparts);
//! the stream ticker and reader are [`Client::outbound_tick`] and
//! [`Client::push_notif`].

use vstd::prelude::*;

use crate::channel::Channel;
use crate::messages::Character;
use crate::messages::CreateCharacterPayload;
use crate::messages::Direction;
use crate::messages::GameNotif;
use crate::messages::LoginPayload;
use crate::messages::LoginResponse;
use crate::messages::PlayGamePayload;
use crate::messages::RpcFailure;
use crate::messages::RpcOutcome;
use crate::session::apply_create_rel;
use crate::session::apply_login_rel;
use crate::session::choose_create_rel;
use crate::session::choose_play_rel;
use crate::session::AppState;
use crate::session::Session;
use crate::world::apply_entries;
use crate::world::notif_entries;
use crate::world::spawn_point;
use crate::world::WorldView;
use crate::world::SPAWN_X;
use crate::world::SPAWN_Y;

verus! {

/// What a non-blocking drain of a unary result queue found: nothing yet
/// (not an error, a poll state), a success that transitioned the session,
/// or a failure that only cleared the in-flight flag.
#[derive(Clone, Copy, PartialEq, Eq, Debug)]
pub enum PollResult {
    NotReady,
    Succeeded,
    Failed(RpcFailure),
}

/// The poll result a drained outcome maps to.
pub open spec fn poll_result_of<T>(outcome: RpcOutcome<T>) -> PollResult {
    match outcome {
        RpcOutcome::Success(_) => PollResult::Succeeded,
        RpcOutcome::Failure(f) => PollResult::Failed(f),
    }
}

/// The client core: the session state machine, one request/response
/// queue pair per unary RPC kind with the worker's serving flag, the two
/// queues of the play stream, and the world view while on the field.
pub struct Client {
    pub session: Session,
    pub login_requests: Channel<LoginPayload>,
    pub login_serving: bool,
    pub login_results: Channel<RpcOutcome<LoginResponse>>,
    pub create_requests: Channel<CreateCharacterPayload>,
    pub create_serving: bool,
    pub create_results: Channel<RpcOutcome<Character>>,
    pub play_outbound: Channel<PlayGamePayload>,
    pub play_inbound: Channel<GameNotif>,
    pub world: Option<WorldView>,
}

impl Client {
    /// How many login requests are in flight: queued for the worker,
    /// being served, or resulted and not yet drained.
    pub open spec fn login_in_flight(self) -> int {
        self.login_requests@.len() + (if self.login_serving {
            1int
        } else {
            0int
        }) + self.login_results@.len()
    }

    /// How many character creation requests are in flight.
    pub open spec fn create_in_flight(self) -> int {
        self.create_requests@.len() + (if self.create_serving {
            1int
        } else {
            0int
        }) + self.create_results@.len()
    }

    /// Well-formedness: the session is well formed, the in-flight count
    /// of each unary RPC kind is exactly its session flag — so never more
    /// than one — and the world view exists exactly while the session is
    /// on the field, tracking the character chosen for play.
    pub open spec fn wf(self) -> bool {
        &&& self.session.wf()
        &&& self.login_in_flight() == (if self.session.login_pending {
            1int
        } else {
            0int
        })
        &&& self.create_in_flight() == (if self.session.create_pending {
            1int
        } else {
            0int
        })
        &&& (self.world is Some) == (self.session.state == AppState::Field)
        &&& self.world matches Some(w) ==> w.wf() && self.session.active_character_id == Some(
            w.local_id,
        )
    }

    /// A fresh client: main menu, every queue empty, no world view.
    pub fn new() -> (r: Client)
        ensures
            r.wf(),
            r.session.state == AppState::MainMenu,
            !r.session.login_pending,
            !r.session.create_pending,
            r.session.token is None,
            r.session.owned() == Seq::<Character>::empty(),
            r.login_requests@.len() == 0,
            !r.login_serving,
            r.login_results@.len() == 0,
            r.create_requests@.len() == 0,
            !r.create_serving,
            r.create_results@.len() == 0,
            r.play_outbound@.len() == 0,
            r.play_inbound@.len() == 0,
            r.world is None,
    {
        Client {
            session: Session::new(),
            login_requests: Channel::new(),
            login_serving: false,
            login_results: Channel::new(),
            create_requests: Channel::new(),
            create_serving: false,
            create_results: Channel::new(),
            play_outbound: Channel::new(),
            play_inbound: Channel::new(),
            world: None,
        }
    }

    /// Submits a login request: accepted exactly when the session is on
    /// the main menu with no login in flight, in which case the payload
    /// is queued for the login worker; otherwise a no-op.
    pub fn submit_login(&mut self, username: String, password: Vec<u8>) -> (accepted: bool)
        requires
            old(self).wf(),
        ensures
            final(self).wf(),
            submit_login_step(*old(self), username, password, accepted, *final(self)),
    {
        match self.session.submit_login(username, password) {
            Some(payload) => {
                self.login_requests.send(payload);
                true
            },
            None => false,
        }
    }

    /// The login worker's receive: takes the queued request, if any, and
    /// marks it as being served.  The in-flight invariant means the
    /// worker never sees more than one request outstanding.
    pub fn login_worker_take(&mut self) -> (r: Option<LoginPayload>)
        requires
            old(self).wf(),
        ensures
            final(self).wf(),
            login_take_step(*old(self), r, *final(self)),
    {
        match self.login_requests.try_recv() {
            Some(payload) => {
                self.login_serving = true;
                Some(payload)
            },
            None => None,
        }
    }

    /// The login worker's reply: exactly one outcome for the request it
    /// took, queued for the render loop to drain.
    pub fn login_worker_finish(&mut self, outcome: RpcOutcome<LoginResponse>)
        requires
            old(self).wf(),
            old(self).login_serving,
        ensures
            final(self).wf(),
            login_finish_step(*old(self), outcome, *final(self)),
    {
        self.login_serving = false;
        self.login_results.send(outcome);
    }

    /// Drains at most one login result, non-blocking: nothing queued
    /// means nothing yet and no change at all; a queued outcome is fed to
    /// the session state machine, which transitions exactly on success.
    pub fn poll_login(&mut self) -> (r: PollResult)
        requires
            old(self).wf(),
        ensures
            final(self).wf(),
            poll_login_step(*old(self), r, *final(self)),
    {
        match self.login_results.try_recv() {
            None => PollResult::NotReady,
            Some(outcome) => {
                match outcome {
                    RpcOutcome::Success(resp) => {
                        self.session.apply_login_outcome(RpcOutcome::Success(resp));
                        PollResult::Succeeded
                    },
                    RpcOutcome::Failure(f) => {
                        self.session.apply_login_outcome(
                            RpcOutcome::Failure::<LoginResponse>(f),
                        );
                        PollResult::Failed(f)
                    },
                }
            },
        }
    }

    /// The user picks "create" on the character selection screen.
    pub fn choose_create(&mut self) -> (accepted: bool)
        requires
            old(self).wf(),
        ensures
            final(self).wf(),
            choose_create_rel(old(self).session, accepted, final(self).session),
            queues_unchanged(*old(self), *final(self)),
            final(self).world == old(self).world,
    {
        self.session.choose_create()
    }

    /// Submits a character creation request: accepted exactly when the
    /// session is on the creation screen with no creation in flight, in
    /// which case the payload — the session's token and the chosen name —
    /// is queued for the creation worker; otherwise a no-op.
    pub fn submit_create(&mut self, name: String) -> (accepted: bool)
        requires
            old(self).wf(),
        ensures
            final(self).wf(),
            submit_create_step(*old(self), name, accepted, *final(self)),
    {
        match self.session.submit_create(name) {
            Some(payload) => {
                self.create_requests.send(payload);
                true
            },
            None => false,
        }
    }

    /// The creation worker's receive; see [`Client::login_worker_take`].
    pub fn create_worker_take(&mut self) -> (r: Option<CreateCharacterPayload>)
        requires
            old(self).wf(),
        ensures
            final(self).wf(),
            create_take_step(*old(self), r, *final(self)),
    {
        match self.create_requests.try_recv() {
            Some(payload) => {
                self.create_serving = true;
                Some(payload)
            },
            None => None,
        }
    }

    /// The creation worker's reply; see [`Client::login_worker_finish`].
    pub fn create_worker_finish(&mut self, outcome: RpcOutcome<Character>)
        requires
            old(self).wf(),
            old(self).create_serving,
        ensures
            final(self).wf(),
            create_finish_step(*old(self), outcome, *final(self)),
    {
        self.create_serving = false;
        self.create_results.send(outcome);
    }

    /// Drains at most one character creation result, non-blocking; see
    /// [`Client::poll_login`].
    pub fn poll_create(&mut self) -> (r: PollResult)
        requires
            old(self).wf(),
        ensures
            final(self).wf(),
            poll_create_step(*old(self), r, *final(self)),
    {
        match self.create_results.try_recv() {
            None => PollResult::NotReady,
            Some(outcome) => {
                match outcome {
                    RpcOutcome::Success(c) => {
                        self.session.apply_create_outcome(RpcOutcome::Success(c));
                        PollResult::Succeeded
                    },
                    RpcOutcome::Failure(f) => {
                        self.session.apply_create_outcome(RpcOutcome::Failure::<Character>(f));
                        PollResult::Failed(f)
                    },
                }
            },
        }
    }

    /// The user picks an owned character to play: the session moves to
    /// the field, the join message is queued on the outbound stream, and
    /// the world view opens with that character at the spawn point.
    pub fn choose_play(&mut self, index: usize) -> (accepted: bool)
        requires
            old(self).wf(),
        ensures
            final(self).wf(),
            choose_play_step(*old(self), index as int, accepted, *final(self)),
    {
        match self.session.choose_play(index) {
            Some(payload) => {
                let id = payload.character_id;
                self.play_outbound.send(payload);
                self.world = Some(WorldView::new(id, crate::messages::Position {
                    x: SPAWN_X,
                    y: SPAWN_Y,
                }));
                proof {
                    assert(self.play_outbound@.subrange(
                        0,
                        old(self).play_outbound@.len() as int,
                    ) =~= old(self).play_outbound@);
                    assert(self.play_outbound@.last() == payload);
                }
                true
            },
            None => false,
        }
    }

    /// Queues one outbound message on the play stream, behind whatever
    /// was queued before: the stream delivers submissions in order, at
    /// the ticker's bounded rate.
    pub fn send_play_message(&mut self, payload: PlayGamePayload)
        requires
            old(self).wf(),
        ensures
            final(self).wf(),
            final(self).play_outbound@ == old(self).play_outbound@.push(payload),
            final(self).session == old(self).session,
            final(self).play_inbound@ == old(self).play_inbound@,
            final(self).world == old(self).world,
            login_side_unchanged(*old(self), *final(self)),
            create_side_unchanged(*old(self), *final(self)),
    {
        self.play_outbound.send(payload);
    }

    /// The stream ticker: pops at most one queued outbound message per
    /// tick to yield into the stream, decoupling local submission rate
    /// from the bounded outbound rate while preserving submission order.
    pub fn outbound_tick(&mut self) -> (r: Option<PlayGamePayload>)
        requires
            old(self).wf(),
        ensures
            final(self).wf(),
            old(self).play_outbound@.len() == 0 ==> r is None && *final(self) == *old(self),
            old(self).play_outbound@.len() > 0 ==> r == Some(old(self).play_outbound@[0])
                && final(self).play_outbound@ == old(self).play_outbound@.drop_first(),
            final(self).session == old(self).session,
            final(self).play_inbound@ == old(self).play_inbound@,
            final(self).world == old(self).world,
            login_side_unchanged(*old(self), *final(self)),
            create_side_unchanged(*old(self), *final(self)),
    {
        self.play_outbound.try_recv()
    }

    /// The stream reader: queues one received notification batch for the
    /// render loop, in receive order.
    pub fn push_notif(&mut self, notif: GameNotif)
        requires
            old(self).wf(),
        ensures
            final(self).wf(),
            final(self).play_inbound@ == old(self).play_inbound@.push(notif),
            final(self).session == old(self).session,
            final(self).play_outbound@ == old(self).play_outbound@,
            final(self).world == old(self).world,
            login_side_unchanged(*old(self), *final(self)),
            create_side_unchanged(*old(self), *final(self)),
    {
        self.play_inbound.send(notif);
    }

    /// Drains at most one inbound notification batch per tick and, while
    /// on the field, applies it to the world view whole — every update of
    /// the batch and nothing of any other batch.  Off the field nothing
    /// is drained.
    pub fn poll_notif(&mut self) -> (applied: bool)
        requires
            old(self).wf(),
        ensures
            final(self).wf(),
            poll_notif_step(*old(self), applied, *final(self)),
    {
        if self.world.is_some() {
            match self.play_inbound.try_recv() {
                Some(notif) => {
                    match &mut self.world {
                        Some(w) => {
                            w.apply_notif(&notif);
                        },
                        None => {
                            proof {
                                assert(false);
                            }
                        },
                    }
                    true
                },
                None => false,
            }
        } else {
            false
        }
    }

    /// One discrete grid step of the locally controlled character, while
    /// on the field.  Notifications never move it; local input alone
    /// does.
    pub fn move_local(&mut self, d: Direction) -> (moved: bool)
        requires
            old(self).wf(),
            old(self).world matches Some(w) ==> w.local_position.step_fits(d),
        ensures
            final(self).wf(),
            moved == (old(self).world is Some),
            !moved ==> *final(self) == *old(self),
            moved ==> ({
                &&& old(self).world matches Some(w1)
                &&& final(self).world matches Some(w2)
                &&& w2.local_id == w1.local_id
                &&& w2.others@ == w1.others@
                &&& w2.local_position.x as int == w1.local_position.x + d.spec_dx()
                &&& w2.local_position.y as int == w1.local_position.y + d.spec_dy()
            }),
            final(self).session == old(self).session,
            final(self).play_outbound@ == old(self).play_outbound@,
            final(self).play_inbound@ == old(self).play_inbound@,
            login_side_unchanged(*old(self), *final(self)),
            create_side_unchanged(*old(self), *final(self)),
    {
        match &mut self.world {
            Some(w) => {
                w.step_local(d);
                true
            },
            None => false,
        }
    }
}

/// The login queues and serving flag are untouched.
pub open spec fn login_side_unchanged(pre: Client, post: Client) -> bool {
    &&& post.login_requests@ == pre.login_requests@
    &&& post.login_serving == pre.login_serving
    &&& post.login_results@ == pre.login_results@
}

/// The character creation queues and serving flag are untouched.
pub open spec fn create_side_unchanged(pre: Client, post: Client) -> bool {
    &&& post.create_requests@ == pre.create_requests@
    &&& post.create_serving == pre.create_serving
    &&& post.create_results@ == pre.create_results@
}

/// The play stream queues are untouched.
pub open spec fn play_side_unchanged(pre: Client, post: Client) -> bool {
    &&& post.play_outbound@ == pre.play_outbound@
    &&& post.play_inbound@ == pre.play_inbound@
}

/// Every queue and serving flag is untouched.
pub open spec fn queues_unchanged(pre: Client, post: Client) -> bool {
    &&& login_side_unchanged(pre, post)
    &&& create_side_unchanged(pre, post)
    &&& play_side_unchanged(pre, post)
}

/// Exactly what [`Client::submit_login`] does: accepted on the main menu
/// with nothing in flight, and then the one queued request carries the
/// given credentials; rejected anywhere else, and then a no-op.
pub open spec fn submit_login_step(
    pre: Client,
    username: String,
    password: Vec<u8>,
    accepted: bool,
    post: Client,
) -> bool {
    if pre.session.state == AppState::MainMenu && !pre.session.login_pending {
        &&& accepted
        &&& post.session == Session { login_pending: true, ..pre.session }
        &&& post.login_requests@.len() == pre.login_requests@.len() + 1
        &&& post.login_requests@.last().username == username
        &&& post.login_requests@.last().password == password
        &&& post.login_serving == pre.login_serving
        &&& post.login_results@ == pre.login_results@
        &&& create_side_unchanged(pre, post)
        &&& play_side_unchanged(pre, post)
        &&& post.world == pre.world
    } else {
        &&& !accepted
        &&& post == pre
    }
}

/// Exactly what [`Client::login_worker_take`] does: the queued request,
/// if any, moves from the queue to being served; nothing else changes.
pub open spec fn login_take_step(pre: Client, r: Option<LoginPayload>, post: Client) -> bool {
    if pre.login_requests@.len() > 0 {
        &&& r == Some(pre.login_requests@[0])
        &&& post.login_requests@ == pre.login_requests@.drop_first()
        &&& post.login_serving
        &&& post.login_results@ == pre.login_results@
        &&& post.session == pre.session
        &&& create_side_unchanged(pre, post)
        &&& play_side_unchanged(pre, post)
        &&& post.world == pre.world
    } else {
        &&& r is None
        &&& post == pre
    }
}

/// Exactly what [`Client::login_worker_finish`] does: serving ends and
/// the one outcome joins the result queue; nothing else changes.
pub open spec fn login_finish_step(
    pre: Client,
    outcome: RpcOutcome<LoginResponse>,
    post: Client,
) -> bool {
    &&& !post.login_serving
    &&& post.login_requests@ == pre.login_requests@
    &&& post.login_results@ == pre.login_results@.push(outcome)
    &&& post.session == pre.session
    &&& create_side_unchanged(pre, post)
    &&& play_side_unchanged(pre, post)
    &&& post.world == pre.world
}

/// Exactly what [`Client::poll_login`] does: nothing queued is nothing
/// yet and no change at all; else the oldest outcome leaves the queue and
/// drives the session per [`apply_login_rel`].
pub open spec fn poll_login_step(pre: Client, r: PollResult, post: Client) -> bool {
    if pre.login_results@.len() == 0 {
        &&& r == PollResult::NotReady
        &&& post == pre
    } else {
        &&& r == poll_result_of(pre.login_results@[0])
        &&& post.login_results@ == pre.login_results@.drop_first()
        &&& post.login_requests@ == pre.login_requests@
        &&& post.login_serving == pre.login_serving
        &&& apply_login_rel(pre.session, pre.login_results@[0], post.session)
        &&& create_side_unchanged(pre, post)
        &&& play_side_unchanged(pre, post)
        &&& post.world == pre.world
    }
}

/// Exactly what [`Client::submit_create`] does: accepted on the creation
/// screen with nothing in flight, and then the one queued request carries
/// the session's token and the chosen name; rejected anywhere else, and
/// then a no-op.
pub open spec fn submit_create_step(
    pre: Client,
    name: String,
    accepted: bool,
    post: Client,
) -> bool {
    if pre.session.state == AppState::CharCreationMenu && !pre.session.create_pending {
        &&& accepted
        &&& post.session == Session { create_pending: true, ..pre.session }
        &&& post.create_requests@.len() == pre.create_requests@.len() + 1
        &&& (pre.session.token matches Some(t) && post.create_requests@.last().token@ == t.token@)
        &&& post.create_requests@.last().name == name
        &&& post.create_serving == pre.create_serving
        &&& post.create_results@ == pre.create_results@
        &&& login_side_unchanged(pre, post)
        &&& play_side_unchanged(pre, post)
        &&& post.world == pre.world
    } else {
        &&& !accepted
        &&& post == pre
    }
}

/// Exactly what [`Client::create_worker_take`] does.
pub open spec fn create_take_step(
    pre: Client,
    r: Option<CreateCharacterPayload>,
    post: Client,
) -> bool {
    if pre.create_requests@.len() > 0 {
        &&& r == Some(pre.create_requests@[0])
        &&& post.create_requests@ == pre.create_requests@.drop_first()
        &&& post.create_serving
        &&& post.create_results@ == pre.create_results@
        &&& post.session == pre.session
        &&& login_side_unchanged(pre, post)
        &&& play_side_unchanged(pre, post)
        &&& post.world == pre.world
    } else {
        &&& r is None
        &&& post == pre
    }
}

/// Exactly what [`Client::create_worker_finish`] does.
pub open spec fn create_finish_step(
    pre: Client,
    outcome: RpcOutcome<Character>,
    post: Client,
) -> bool {
    &&& !post.create_serving
    &&& post.create_requests@ == pre.create_requests@
    &&& post.create_results@ == pre.create_results@.push(outcome)
    &&& post.session == pre.session
    &&& login_side_unchanged(pre, post)
    &&& play_side_unchanged(pre, post)
    &&& post.world == pre.world
}

/// Exactly what [`Client::poll_create`] does.
pub open spec fn poll_create_step(pre: Client, r: PollResult, post: Client) -> bool {
    if pre.create_results@.len() == 0 {
        &&& r == PollResult::NotReady
        &&& post == pre
    } else {
        &&& r == poll_result_of(pre.create_results@[0])
        &&& post.create_results@ == pre.create_results@.drop_first()
        &&& post.create_requests@ == pre.create_requests@
        &&& post.create_serving == pre.create_serving
        &&& apply_create_rel(pre.session, pre.create_results@[0], post.session)
        &&& login_side_unchanged(pre, post)
        &&& play_side_unchanged(pre, post)
        &&& post.world == pre.world
    }
}

/// Exactly what [`Client::choose_play`] does: on acceptance the session
/// moves to the field per [`choose_play_rel`], the join message for the
/// chosen character is queued outbound, and the world view opens with
/// that character at the spawn point.
pub open spec fn choose_play_step(pre: Client, index: int, accepted: bool, post: Client) -> bool {
    if pre.session.state == AppState::CharSelectionMenu && 0 <= index < pre.session.owned().len() {
        &&& accepted
        &&& choose_play_rel(pre.session, index, Some(post.play_outbound@.last()), post.session)
        &&& post.play_outbound@.len() == pre.play_outbound@.len() + 1
        &&& post.play_outbound@.subrange(0, pre.play_outbound@.len() as int)
            == pre.play_outbound@
        &&& post.play_inbound@ == pre.play_inbound@
        &&& post.world matches Some(w) && w.local_id == pre.session.owned()[index].id
            && w.local_position == spawn_point() && w.others@ == Seq::<
            crate::world::RemoteCharacter,
        >::empty()
        &&& login_side_unchanged(pre, post)
        &&& create_side_unchanged(pre, post)
    } else {
        &&& !accepted
        &&& post == pre
    }
}

/// Exactly what [`Client::poll_notif`] does: off the field, or with
/// nothing queued, nothing happens; else the oldest batch leaves the
/// queue and is applied to the world view whole, per
/// [`apply_entries`], leaving the local character untouched.
pub open spec fn poll_notif_step(pre: Client, applied: bool, post: Client) -> bool {
    if pre.world is Some && pre.play_inbound@.len() > 0 {
        &&& applied
        &&& post.play_inbound@ == pre.play_inbound@.drop_first()
        &&& pre.world matches Some(w1)
        &&& post.world matches Some(w2)
        &&& {
            let w1 = pre.world.unwrap();
            let w2 = post.world.unwrap();
            &&& w2.local_id == w1.local_id
            &&& w2.local_position == w1.local_position
            &&& w2.others@ == apply_entries(
                w1.others@,
                w1.local_id,
                notif_entries(pre.play_inbound@[0]),
            )
        }
        &&& post.session == pre.session
        &&& post.play_outbound@ == pre.play_outbound@
        &&& login_side_unchanged(pre, post)
        &&& create_side_unchanged(pre, post)
    } else {
        &&& !applied
        &&& post == pre
    }
}

/// At most one in flight, seen from the worker: under the client
/// invariant a worker can never find more than one request queued for it,
/// nor more than one result queued back, for its RPC kind.
pub proof fn lemma_at_most_one_in_flight(c: Client)
    requires
        c.wf(),
    ensures
        c.login_in_flight() <= 1,
        c.login_requests@.len() <= 1,
        c.login_results@.len() <= 1,
        c.create_in_flight() <= 1,
        c.create_requests@.len() <= 1,
        c.create_results@.len() <= 1,
{
}

/// Submitting while a request of the same kind is in flight is a no-op:
/// the submission is rejected and the client — queues included — is
/// exactly what it was.
pub proof fn lemma_submit_while_pending_is_noop(
    pre: Client,
    username: String,
    password: Vec<u8>,
    accepted: bool,
    post: Client,
)
    requires
        submit_login_step(pre, username, password, accepted, post),
        pre.session.login_pending,
    ensures
        !accepted,
        post == pre,
{
}

/// Submitting a character creation while one is in flight is equally a
/// no-op.
pub proof fn lemma_submit_create_while_pending_is_noop(
    pre: Client,
    name: String,
    accepted: bool,
    post: Client,
)
    requires
        submit_create_step(pre, name, accepted, post),
        pre.session.create_pending,
    ensures
        !accepted,
        post == pre,
{
}

/// FIFO result order over two full login exchanges: the worker takes the
/// two requests in submission order, each gets exactly one result, and
/// the render loop drains the two results in that same order.  (The
/// first outcome is a failure, so that the session stays on the main
/// menu and the second submission is accepted.)
pub proof fn lemma_unary_fifo(
    c0: Client,
    u1: String,
    pw1: Vec<u8>,
    a1: bool,
    c1: Client,
    t1: Option<LoginPayload>,
    c2: Client,
    f1: RpcFailure,
    c3: Client,
    r1: PollResult,
    c4: Client,
    u2: String,
    pw2: Vec<u8>,
    a2: bool,
    c5: Client,
    t2: Option<LoginPayload>,
    c6: Client,
    o2: RpcOutcome<LoginResponse>,
    c7: Client,
    r2: PollResult,
    c8: Client,
)
    requires
        c0.wf(),
        c0.session.state == AppState::MainMenu,
        !c0.session.login_pending,
        submit_login_step(c0, u1, pw1, a1, c1),
        login_take_step(c1, t1, c2),
        login_finish_step(c2, RpcOutcome::Failure(f1), c3),
        poll_login_step(c3, r1, c4),
        submit_login_step(c4, u2, pw2, a2, c5),
        login_take_step(c5, t2, c6),
        login_finish_step(c6, o2, c7),
        poll_login_step(c7, r2, c8),
    ensures
        a1,
        t1 matches Some(p1) && p1.username == u1 && p1.password == pw1,
        r1 == PollResult::Failed(f1),
        a2,
        t2 matches Some(p2) && p2.username == u2 && p2.password == pw2,
        r2 == poll_result_of(o2),
{
    assert(c1.login_requests@.len() == 1);
    assert(c1.login_requests@.last() == c1.login_requests@[0]);
    assert(c3.login_results@.len() == 1);
    assert(c3.login_results@[0] == RpcOutcome::<LoginResponse>::Failure(f1));
    assert(c4.session.state == c3.session.state);
    assert(c5.login_requests@.len() == 1);
    assert(c5.login_requests@.last() == c5.login_requests@[0]);
    assert(c7.login_results@.len() == 1);
    assert(c7.login_results@[0] == o2);
}

} // verus!
