//! The session state machine.
//!
//! The render loop owns one [`Session`] and is the only writer of it.  The
//! session moves between four screens: the main menu, character selection,
//! character creation, and the play field.  A screen changes only on an
//! explicit user action (choosing to create or to play) or on a drained
//! successful RPC result; a drained failure clears the in-flight flag and
//! leaves everything else exactly as it was, so the user can resubmit.
//!
//! The in-flight flags are the flow-control policy: at most one unary
//! request per RPC kind may be outstanding, enforced here by the state
//! machine's own guard, not by the queues.

use vstd::prelude::*;

use crate::messages::Character;
use crate::messages::CreateCharacterPayload;
use crate::messages::LoginPayload;
use crate::messages::LoginResponse;
use crate::messages::PlayGamePayload;
use crate::messages::RpcOutcome;
use crate::messages::Token;
use crate::messages::UserCharacters;

verus! {

/// How many characters one player may own; character creation is offered
/// only while a slot is free.
pub const MAX_OWNED_CHARACTERS: usize = 3;

/// The screen the client is on.
#[derive(Clone, Copy, PartialEq, Eq, Structural, Hash, Debug)]
pub enum AppState {
    MainMenu,
    CharSelectionMenu,
    CharCreationMenu,
    Field,
}

/// The client's view of one player's session: the screen, the in-flight
/// guard per unary RPC kind, the authentication token once login
/// succeeded, the owned characters, and the character chosen for play.
pub struct Session {
    pub state: AppState,
    pub login_pending: bool,
    pub create_pending: bool,
    pub token: Option<Token>,
    pub characters: UserCharacters,
    pub active_character_id: Option<i64>,
}

/// What the session stores for a character reported by the server: the
/// identity is kept, the last-known position starts unknown.
pub open spec fn adopted(c: Character) -> Character {
    Character { id: c.id, name: c.name, position: None }
}

impl Session {
    /// The owned characters, as a sequence.
    pub open spec fn owned(self) -> Seq<Character> {
        self.characters.characters@
    }

    /// Well-formedness: an in-flight request pins the screen it was
    /// submitted from, a token exists on every screen past the main menu,
    /// character creation is only entered while a slot is free, and a
    /// character is chosen exactly while on the field.
    pub open spec fn wf(self) -> bool {
        &&& self.login_pending ==> self.state == AppState::MainMenu
        &&& self.create_pending ==> self.state == AppState::CharCreationMenu
        &&& self.state != AppState::MainMenu ==> self.token is Some
        &&& self.state == AppState::CharCreationMenu ==> self.owned().len() < MAX_OWNED_CHARACTERS
        &&& self.state == AppState::Field <==> self.active_character_id is Some
    }

    /// A fresh session: main menu, nothing in flight, nothing owned.
    pub fn new() -> (r: Session)
        ensures
            r.wf(),
            r.state == AppState::MainMenu,
            !r.login_pending,
            !r.create_pending,
            r.token is None,
            r.owned() == Seq::<Character>::empty(),
            r.active_character_id is None,
    {
        Session {
            state: AppState::MainMenu,
            login_pending: false,
            create_pending: false,
            token: None,
            characters: UserCharacters { characters: Vec::new() },
            active_character_id: None,
        }
    }

    /// Submits a login request: accepted exactly when the session is on
    /// the main menu with no login already in flight.  An accepted
    /// submission sets the in-flight flag and hands back the payload for
    /// the worker; a rejected one is a no-op.
    pub fn submit_login(&mut self, username: String, password: Vec<u8>) -> (r: Option<
        LoginPayload,
    >)
        requires
            old(self).wf(),
        ensures
            final(self).wf(),
            submit_login_rel(*old(self), username, password, r, *final(self)),
    {
        if self.state == AppState::MainMenu && !self.login_pending {
            self.login_pending = true;
            Some(LoginPayload { username, password })
        } else {
            None
        }
    }

    /// Applies a drained login result.  Success moves the session to
    /// character selection, storing the token and the owned characters as
    /// reported (positions start unknown); failure only clears the
    /// in-flight flag, so the screen stays put and becomes resubmittable.
    pub fn apply_login_outcome(&mut self, outcome: RpcOutcome<LoginResponse>)
        requires
            old(self).wf(),
            old(self).login_pending,
        ensures
            final(self).wf(),
            apply_login_rel(*old(self), outcome, *final(self)),
    {
        match outcome {
            RpcOutcome::Failure(_) => {
                self.login_pending = false;
            },
            RpcOutcome::Success(resp) => {
                let ghost reported = resp.characters@;
                let mut stored: Vec<Character> = Vec::new();
                let mut i: usize = 0;
                while i < resp.characters.len()
                    invariant
                        i <= resp.characters.len(),
                        resp.characters@ == reported,
                        stored@.len() == i,
                        forall|j: int| 0 <= j < i ==> stored@[j] == adopted(reported[j]),
                    decreases resp.characters.len() - i,
                {
                    let c = &resp.characters[i];
                    stored.push(Character { id: c.id, name: c.name.clone(), position: None });
                    i += 1;
                }
                proof {
                    assert(stored@ =~= reported.map_values(|c: Character| adopted(c)));
                }
                self.login_pending = false;
                self.state = AppState::CharSelectionMenu;
                self.token = Some(Token { token: resp.token });
                self.characters = UserCharacters { characters: stored };
            },
        }
    }

    /// The user picks "create" on the character selection screen:
    /// accepted exactly when the session is there and a character slot is
    /// still free.  Nothing but the screen changes.
    pub fn choose_create(&mut self) -> (accepted: bool)
        requires
            old(self).wf(),
        ensures
            final(self).wf(),
            choose_create_rel(*old(self), accepted, *final(self)),
    {
        if self.state == AppState::CharSelectionMenu
            && self.characters.characters.len() < MAX_OWNED_CHARACTERS {
            self.state = AppState::CharCreationMenu;
            true
        } else {
            false
        }
    }

    /// Submits a character creation request: accepted exactly when the
    /// session is on the creation screen with no creation already in
    /// flight.  The payload carries the session's token and the chosen
    /// name.
    pub fn submit_create(&mut self, name: String) -> (r: Option<CreateCharacterPayload>)
        requires
            old(self).wf(),
        ensures
            final(self).wf(),
            submit_create_rel(*old(self), name, r, *final(self)),
    {
        if self.state == AppState::CharCreationMenu && !self.create_pending {
            let token = match &self.token {
                Some(t) => t.token.clone(),
                None => {
                    proof {
                        assert(false);
                    }
                    String::new()
                },
            };
            self.create_pending = true;
            Some(CreateCharacterPayload { token, name })
        } else {
            None
        }
    }

    /// Applies a drained character creation result.  Success moves the
    /// session back to character selection and appends the new character
    /// to the owned set; failure only clears the in-flight flag.
    pub fn apply_create_outcome(&mut self, outcome: RpcOutcome<Character>)
        requires
            old(self).wf(),
            old(self).create_pending,
        ensures
            final(self).wf(),
            apply_create_rel(*old(self), outcome, *final(self)),
    {
        match outcome {
            RpcOutcome::Failure(_) => {
                self.create_pending = false;
            },
            RpcOutcome::Success(c) => {
                self.create_pending = false;
                self.state = AppState::CharSelectionMenu;
                self.characters.characters.push(
                    Character { id: c.id, name: c.name, position: None },
                );
            },
        }
    }

    /// The user picks an owned character to play: accepted exactly when
    /// the session is on the character selection screen and `index` names
    /// an owned character.  The session moves to the field with that
    /// character active, and the payload joining the play stream is
    /// handed back.
    pub fn choose_play(&mut self, index: usize) -> (r: Option<PlayGamePayload>)
        requires
            old(self).wf(),
        ensures
            final(self).wf(),
            choose_play_rel(*old(self), index as int, r, *final(self)),
    {
        if self.state == AppState::CharSelectionMenu && index < self.characters.characters.len() {
            let token = match &self.token {
                Some(t) => t.token.clone(),
                None => {
                    proof {
                        assert(false);
                    }
                    String::new()
                },
            };
            let id = self.characters.characters[index].id;
            self.state = AppState::Field;
            self.active_character_id = Some(id);
            Some(PlayGamePayload { token, character_id: id, position: None })
        } else {
            None
        }
    }
}

/// Exactly what [`Session::submit_login`] does.
pub open spec fn submit_login_rel(
    pre: Session,
    username: String,
    password: Vec<u8>,
    r: Option<LoginPayload>,
    post: Session,
) -> bool {
    if pre.state == AppState::MainMenu && !pre.login_pending {
        &&& r matches Some(p) && p.username == username && p.password == password
        &&& post == Session { login_pending: true, ..pre }
    } else {
        &&& r is None
        &&& post == pre
    }
}

/// Exactly what [`Session::apply_login_outcome`] does.
pub open spec fn apply_login_rel(
    pre: Session,
    outcome: RpcOutcome<LoginResponse>,
    post: Session,
) -> bool {
    match outcome {
        RpcOutcome::Failure(_) => post == Session { login_pending: false, ..pre },
        RpcOutcome::Success(resp) => {
            &&& post.state == AppState::CharSelectionMenu
            &&& !post.login_pending
            &&& post.create_pending == pre.create_pending
            &&& post.token matches Some(t) && t.token == resp.token
            &&& post.owned() == resp.characters@.map_values(|c: Character| adopted(c))
            &&& post.active_character_id == pre.active_character_id
        },
    }
}

/// Exactly what [`Session::choose_create`] does.
pub open spec fn choose_create_rel(pre: Session, accepted: bool, post: Session) -> bool {
    if pre.state == AppState::CharSelectionMenu && pre.owned().len() < MAX_OWNED_CHARACTERS {
        &&& accepted
        &&& post == Session { state: AppState::CharCreationMenu, ..pre }
    } else {
        &&& !accepted
        &&& post == pre
    }
}

/// Exactly what [`Session::submit_create`] does.
pub open spec fn submit_create_rel(
    pre: Session,
    name: String,
    r: Option<CreateCharacterPayload>,
    post: Session,
) -> bool {
    if pre.state == AppState::CharCreationMenu && !pre.create_pending {
        &&& r matches Some(p) && (pre.token matches Some(t) && p.token@ == t.token@) && p.name
            == name
        &&& post == Session { create_pending: true, ..pre }
    } else {
        &&& r is None
        &&& post == pre
    }
}

/// Exactly what [`Session::apply_create_outcome`] does.
pub open spec fn apply_create_rel(
    pre: Session,
    outcome: RpcOutcome<Character>,
    post: Session,
) -> bool {
    match outcome {
        RpcOutcome::Failure(_) => post == Session { create_pending: false, ..pre },
        RpcOutcome::Success(c) => {
            &&& post.state == AppState::CharSelectionMenu
            &&& !post.login_pending
            &&& !post.create_pending
            &&& post.token == pre.token
            &&& post.owned() == pre.owned().push(adopted(c))
            &&& post.active_character_id == pre.active_character_id
        },
    }
}

/// Exactly what [`Session::choose_play`] does.
pub open spec fn choose_play_rel(
    pre: Session,
    index: int,
    r: Option<PlayGamePayload>,
    post: Session,
) -> bool {
    if pre.state == AppState::CharSelectionMenu && 0 <= index < pre.owned().len() {
        &&& r matches Some(p) && (pre.token matches Some(t) && p.token@ == t.token@)
            && p.character_id == pre.owned()[index].id && p.position is None
        &&& post == Session {
            state: AppState::Field,
            active_character_id: Some(pre.owned()[index].id),
            ..pre
        }
    } else {
        &&& r is None
        &&& post == pre
    }
}

/// A failed login result never changes the screen: only the in-flight
/// flag clears, and the token, the owned characters and the active
/// character are exactly what they were.
pub proof fn lemma_login_failure_preserves_state(
    pre: Session,
    outcome: RpcOutcome<LoginResponse>,
    post: Session,
)
    requires
        apply_login_rel(pre, outcome, post),
        outcome matches RpcOutcome::Failure(_),
    ensures
        post.state == pre.state,
        post.token == pre.token,
        post.owned() == pre.owned(),
        post.active_character_id == pre.active_character_id,
        !post.login_pending,
{
}

/// A failed character creation result never changes the screen: only the
/// in-flight flag clears, and everything else is exactly what it was.
pub proof fn lemma_create_failure_preserves_state(
    pre: Session,
    outcome: RpcOutcome<Character>,
    post: Session,
)
    requires
        apply_create_rel(pre, outcome, post),
        outcome matches RpcOutcome::Failure(_),
    ensures
        post.state == pre.state,
        post.token == pre.token,
        post.owned() == pre.owned(),
        post.active_character_id == pre.active_character_id,
        !post.create_pending,
{
}

/// A successful login result always transitions exactly per the table: it
/// can only have been drained on the main menu, and it lands on character
/// selection carrying the token and the reported characters.
pub proof fn lemma_login_success_transitions(pre: Session, resp: LoginResponse, post: Session)
    requires
        pre.wf(),
        pre.login_pending,
        apply_login_rel(pre, RpcOutcome::Success(resp), post),
    ensures
        pre.state == AppState::MainMenu,
        post.state == AppState::CharSelectionMenu,
        post.token matches Some(t) && t.token == resp.token,
        post.owned() == resp.characters@.map_values(|c: Character| adopted(c)),
{
}

/// A successful character creation result always transitions exactly per
/// the table: it can only have been drained on the creation screen, and it
/// lands back on character selection with the new character appended.
pub proof fn lemma_create_success_transitions(pre: Session, c: Character, post: Session)
    requires
        pre.wf(),
        pre.create_pending,
        apply_create_rel(pre, RpcOutcome::Success(c), post),
    ensures
        pre.state == AppState::CharCreationMenu,
        post.state == AppState::CharSelectionMenu,
        post.owned() == pre.owned().push(adopted(c)),
        post.token == pre.token,
{
}

} // verus!
