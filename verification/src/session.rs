//! One connection from its acceptance to its end: what the gateway sends,
//! registers and logs in answer to what it receives.

use crate::identity::gen_uuid;
use crate::identity::is_minted;
use crate::identity::is_uuid_v4_text;
use crate::json::json_document;
use crate::message::dispatch;
use crate::message::envelope_of;
use crate::message::envelope_view;
use crate::message::outcome_of;
use crate::message::parse;
use crate::message::Envelope;
use crate::message::Outcome;
use crate::message::ParseError;
use crate::message::WSMessage;
use crate::user::User;
use crate::user::UserView;
use vstd::prelude::*;
use vstd::string::StringExecFns;

verus! {

/// The payload that greets a new connection.
pub const GREETING: &'static str = "{\"message\":\"You connected\"}";

/// The payload that answers a `Connect` without login data.
pub const MISSING_LOGIN_DATA: &'static str = "{\"error\":\"missing login data\"}";

/// The display name of a user who gave none.
pub const UNNAMED_USER: &'static str = "Unnamed user";

/// The payload that hands a new user its token and id.
pub open spec fn success_text(token: Seq<char>, id: Seq<char>) -> Seq<char> {
    "{\"connection\": {\"token\":\""@ + token + "\", \"id\":\""@ + id + "\"}}"@
}

/// The user that a fresh registration makes of a token and an id.
pub open spec fn fresh_user(token: Seq<char>, id: Seq<char>) -> UserView {
    UserView { id, name: UNNAMED_USER@, token }
}

/// One thing that the session asks its connection, or the holder of the
/// registry, to do. The actions of one step are carried out in their order,
/// and none of those that follow a send that failed.
#[derive(Debug, Clone, PartialEq, Eq)]
pub enum Action {
    /// Send the payload as a text frame.
    SendText(String),
    /// Send the bytes of the payload as a binary frame.
    SendBinary(String),
    /// Start the closing handshake, with the code of a normal closure and
    /// no reason.
    Close,
    /// Put the user into the registry under the id.
    Register { id: String, user: User },
    /// Write a snapshot of the registry to the log.
    LogRegistry,
}

/// An [`Action`] as a mathematical value.
pub ghost enum ActionView {
    SendText(Seq<char>),
    SendBinary(Seq<char>),
    Close,
    Register { id: Seq<char>, user: UserView },
    LogRegistry,
}

impl View for Action {
    type V = ActionView;

    open spec fn view(&self) -> ActionView {
        match self {
            Action::SendText(payload) => ActionView::SendText(payload@),
            Action::SendBinary(payload) => ActionView::SendBinary(payload@),
            Action::Close => ActionView::Close,
            Action::Register { id, user } => ActionView::Register { id: id@, user: user@ },
            Action::LogRegistry => ActionView::LogRegistry,
        }
    }
}

/// A list of actions as mathematical values.
pub open spec fn actions_view(actions: Seq<Action>) -> Seq<ActionView> {
    Seq::new(actions.len(), |i: int| actions[i]@)
}

/// What a fresh registration with this token and id asks for: the user is
/// registered, then told its token and id, then the registry is logged.
pub open spec fn registration_actions(token: Seq<char>, id: Seq<char>) -> Seq<ActionView> {
    seq![
        ActionView::Register { id, user: fresh_user(token, id) },
        ActionView::SendBinary(success_text(token, id)),
        ActionView::LogRegistry,
    ]
}

/// What one action does to the registry: a `Register` puts its user under
/// its id, and no other action touches the registry.
pub open spec fn registry_step(
    registry: Map<Seq<char>, UserView>,
    action: ActionView,
) -> Map<Seq<char>, UserView> {
    match action {
        ActionView::Register { id, user } => registry.insert(id, user),
        _ => registry,
    }
}

/// The registry after a list of actions was carried out in its order.
pub open spec fn registry_after(
    registry: Map<Seq<char>, UserView>,
    actions: Seq<ActionView>,
) -> Map<Seq<char>, UserView>
    decreases actions.len(),
{
    if actions.len() == 0 {
        registry
    } else {
        registry_step(registry_after(registry, actions.drop_last()), actions.last())
    }
}

/// The token that a success payload names: where a token of 36 characters
/// stands in it.
pub open spec fn payload_token(payload: Seq<char>) -> Seq<char> {
    payload.subrange(25, 61)
}

/// The id that a success payload names: where an id of 36 characters
/// stands in it, behind a token of as many.
pub open spec fn payload_id(payload: Seq<char>) -> Seq<char> {
    payload.subrange(70, 106)
}

/// A whole user under `key`: it stands under its own id, its id and its
/// token are canonical UUID texts, and it has the name of a user who gave
/// none. Nothing of it is missing or empty.
pub open spec fn whole(key: Seq<char>, user: UserView) -> bool {
    &&& user.id == key
    &&& is_uuid_v4_text(user.id)
    &&& is_uuid_v4_text(user.token)
    &&& user.name == UNNAMED_USER@
}

/// Every user of the registry is whole: nothing half-made is in it.
pub open spec fn complete(registry: Map<Seq<char>, UserView>) -> bool {
    forall|key: Seq<char>| #[trigger] registry.contains_key(key) ==> whole(key, registry[key])
}

/// An action that puts nothing into the registry but a whole user.
pub open spec fn registers_whole(action: ActionView) -> bool {
    action matches ActionView::Register { id, user } ==> whole(id, user)
}

/// What the connection hands to the session.
#[derive(Debug, Clone, PartialEq, Eq)]
pub enum Event {
    /// A frame came in, with this text.
    Frame(String),
    /// A read or a write failed, or the peer is gone.
    Failed,
}

/// How a session that was open or not, and has read this, goes on: whether
/// it is open afterwards, and which actions it asks for.
///
/// A session that is over stays so and asks for nothing. A text that is no
/// envelope ends the session without a word. `Connect` without login data is
/// answered with the error payload and a normal closure. `Connect` with a
/// `login_pkg` changes nothing. Any other `Connect` registers a new user
/// under a token and an id that are minted for it, each the canonical text
/// of a random UUID.
pub open spec fn follows(
    was_open: bool,
    read: Result<Envelope, ParseError>,
    now_open: bool,
    actions: Seq<ActionView>,
) -> bool {
    if !was_open {
        !now_open && actions == Seq::<ActionView>::empty()
    } else {
        match read {
            Err(_) => !now_open && actions == Seq::<ActionView>::empty(),
            Ok(envelope) => match outcome_of(envelope) {
                Outcome::MissingLoginData => !now_open && actions == seq![
                    ActionView::SendBinary(MISSING_LOGIN_DATA@),
                    ActionView::Close,
                ],
                Outcome::NoOp => now_open && actions == Seq::<ActionView>::empty(),
                Outcome::FreshRegistration => now_open && exists|token: Seq<char>, id: Seq<char>|
                    is_minted(token) && is_minted(id) && actions == #[trigger] registration_actions(
                        token,
                        id,
                    ),
            },
        }
    }
}

/// The life of one connection.
#[derive(Debug)]
pub struct Session {
    open: bool,
}

impl Session {
    /// Whether the session still takes frames.
    pub closed spec fn spec_is_open(&self) -> bool {
        self.open
    }

    /// Whether the session still takes frames.
    #[verifier::when_used_as_spec(spec_is_open)]
    pub fn is_open(&self) -> (open: bool)
        ensures
            open == self.is_open(),
    {
        self.open
    }

    /// Takes a connection on: the session is open, and the greeting is to
    /// be sent.
    pub fn accept() -> (started: (Session, Vec<Action>))
        ensures
            started.0.is_open(),
            actions_view(started.1@) == seq![ActionView::SendText(GREETING@)],
    {
        let mut actions: Vec<Action> = Vec::new();
        actions.push(Action::SendText(String::from_str(GREETING)));
        proof {
            assert(actions_view(actions@) =~= seq![ActionView::SendText(GREETING@)]);
        }
        (Session { open: true }, actions)
    }

    /// The payload that tells a new user its token and id.
    pub fn success_payload(token: &str, id: &str) -> (payload: String)
        ensures
            payload@ == success_text(token@, id@),
    {
        let mut payload = String::from_str("{\"connection\": {\"token\":\"");
        payload.append(token);
        payload.append("\", \"id\":\"");
        payload.append(id);
        payload.append("\"}}");
        payload
    }

    /// What a fresh registration asks for, once a token and an id are
    /// minted.
    pub fn registration(token: String, id: String) -> (actions: Vec<Action>)
        ensures
            actions_view(actions@) == registration_actions(token@, id@),
    {
        let payload = Session::success_payload(token.as_str(), id.as_str());
        let user = User::new(String::from_str(UNNAMED_USER), token, id.clone());
        let mut actions: Vec<Action> = Vec::new();
        actions.push(Action::Register { id, user });
        actions.push(Action::SendBinary(payload));
        actions.push(Action::LogRegistry);
        proof {
            assert(actions_view(actions@) =~= registration_actions(token@, id@));
        }
        actions
    }

    /// Goes on from what was read of a frame.
    pub fn respond(&mut self, read: Result<WSMessage, ParseError>) -> (actions: Vec<Action>)
        ensures
            follows(
                old(self).is_open(),
                envelope_view(read),
                final(self).is_open(),
                actions_view(actions@),
            ),
    {
        let mut actions: Vec<Action> = Vec::new();
        proof {
            assert(actions_view(actions@) =~= Seq::<ActionView>::empty());
        }
        if !self.open {
            return actions;
        }
        let message = match read {
            Ok(message) => message,
            Err(_) => {
                self.open = false;
                return actions;
            },
        };
        match dispatch(&message) {
            Outcome::MissingLoginData => {
                actions.push(Action::SendBinary(String::from_str(MISSING_LOGIN_DATA)));
                actions.push(Action::Close);
                self.open = false;
                proof {
                    assert(actions_view(actions@) =~= seq![
                        ActionView::SendBinary(MISSING_LOGIN_DATA@),
                        ActionView::Close,
                    ]);
                }
                actions
            },
            Outcome::FreshRegistration => {
                let token = gen_uuid();
                let id = gen_uuid();
                Session::registration(token, id)
            },
            Outcome::NoOp => actions,
        }
    }

    /// Takes one frame with this text.
    pub fn on_frame(&mut self, text: &str) -> (actions: Vec<Action>)
        ensures
            follows(
                old(self).is_open(),
                envelope_of(json_document(text@)),
                final(self).is_open(),
                actions_view(actions@),
            ),
    {
        if !self.open {
            let actions: Vec<Action> = Vec::new();
            proof {
                assert(actions_view(actions@) =~= Seq::<ActionView>::empty());
            }
            return actions;
        }
        self.respond(parse(text))
    }

    /// Ends the session after a read or a write that failed, or when the
    /// peer is gone.
    pub fn on_failure(&mut self)
        ensures
            !final(self).is_open(),
    {
        self.open = false;
    }

    /// One step: from the state and what the connection handed over to the
    /// next state and what to do.
    pub fn step(&mut self, event: Event) -> (actions: Vec<Action>)
        ensures
            match event {
                Event::Frame(text) => follows(
                    old(self).is_open(),
                    envelope_of(json_document(text@)),
                    final(self).is_open(),
                    actions_view(actions@),
                ),
                Event::Failed => !final(self).is_open() && actions@.len() == 0,
            },
    {
        match event {
            Event::Frame(text) => self.on_frame(text.as_str()),
            Event::Failed => {
                self.on_failure();
                Vec::new()
            },
        }
    }
}

} // verus!
