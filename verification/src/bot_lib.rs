//! The bot's side of a request: who may ask, what is sent out, and in which
//! order.
//!
//! A command from a chat opens a [`Session`]. Each step hands the driver a
//! list of [`Action`]s; the outcome of the one network call among them is the
//! input of the next step. A session is a plain value that belongs to one
//! command: sessions share nothing but the table of credentials, which no
//! step changes.

use crate::api::{
    fetch_auth_token, fetch_qr_content, generate_qr, qr_content_of, qr_request, qr_request_of,
    rendered, token_of, token_request, token_request_of, APIError, LoginCredentials,
};
use crate::http::{HttpOutcome, HttpOutcomeView, HttpRequest, HttpRequestView};
use std::collections::HashMap;
use vstd::prelude::*;
use vstd::std_specs::hash::group_hash_axioms;

verus! {

broadcast use group_hash_axioms;

/// The commands that the bot understands.
#[derive(Debug, Clone, Copy, PartialEq, Eq, Structural)]
pub enum Command {
    /// Fetch the entry code and send it as a picture.
    QR,
}

/// The credentials of each chat that may use the bot, by chat id.
pub type LoginCredentialsMap = HashMap<i64, LoginCredentials>;

/// What the bot is started with: the table of credentials and the token
/// under which it talks to Telegram.
#[derive(Debug, Clone, PartialEq, Eq)]
pub struct BotCredentials {
    pub chat_credentials: LoginCredentialsMap,
    pub bot_token: String,
}

/// Something for the driver to do.
#[derive(Debug, Clone, PartialEq, Eq)]
pub enum Action {
    /// Send a status line to the chat. Whether it arrives does not matter to
    /// the session.
    Text { chat_id: i64, text: String },
    /// Send the request and report its outcome to the session.
    Call(HttpRequest),
    /// Send the PNG file to the chat as a photo.
    Photo { chat_id: i64, bytes: Vec<u8> },
}

/// The mathematical content of an [`Action`].
pub enum ActionView {
    Text { chat_id: i64, text: Seq<char> },
    Call(HttpRequestView),
    Photo { chat_id: i64, bytes: Seq<u8> },
}

impl View for Action {
    type V = ActionView;

    open spec fn view(&self) -> ActionView {
        match *self {
            Action::Text { chat_id, text } => ActionView::Text { chat_id, text: text@ },
            Action::Call(request) => ActionView::Call(request@),
            Action::Photo { chat_id, bytes } => ActionView::Photo { chat_id, bytes: bytes@ },
        }
    }
}

/// The actions of a list, each by its view.
pub open spec fn actions_view(actions: Seq<Action>) -> Seq<ActionView> {
    actions.map_values(|a: Action| a@)
}

/// How far a session has come.
#[derive(Debug, Clone, Copy, PartialEq, Eq, Structural)]
pub enum Stage {
    /// The chat is not in the table: nothing was sent and nothing will be.
    Ignored,
    /// The sign-in request is out.
    AwaitingToken,
    /// The token arrived and the entry-code request is out.
    AwaitingQr,
    /// The picture was handed over for delivery.
    Delivered,
    /// The run ended early with this error.
    Failed(APIError),
}

/// The run that one command from one chat started.
#[derive(Debug, Clone, Copy, PartialEq, Eq, Structural)]
pub struct Session {
    pub chat_id: i64,
    pub stage: Stage,
}

/// The status line that tells an authorised chat that work has begun.
pub open spec fn working_text() -> Seq<char> {
    "Calling API..."@
}

/// What a command opens: for a chat outside the table an ignored session and
/// no action; for a chat in the table the status line, then the sign-in
/// request for the credentials stored under that chat.
pub open spec fn opening(
    store: Map<i64, LoginCredentials>,
    chat_id: i64,
    command: Command,
) -> (Session, Seq<ActionView>) {
    if !store.contains_key(chat_id) {
        (Session { chat_id, stage: Stage::Ignored }, Seq::empty())
    } else {
        match command {
            Command::QR => {
                let text = ActionView::Text { chat_id, text: working_text() };
                match token_request_of(store[chat_id]@) {
                    Ok(request) => (
                        Session { chat_id, stage: Stage::AwaitingToken },
                        seq![text, ActionView::Call(request)],
                    ),
                    Err(e) => (Session { chat_id, stage: Stage::Failed(e) }, seq![text]),
                }
            },
        }
    }
}

/// What the outcome of the call that a session waits for leads to. A session
/// that waits for nothing stays as it is and sends nothing.
pub open spec fn step(session: Session, outcome: HttpOutcomeView) -> (Session, Seq<ActionView>) {
    let chat_id = session.chat_id;
    match session.stage {
        Stage::AwaitingToken => match token_of(outcome) {
            Ok(token) => (
                Session { chat_id, stage: Stage::AwaitingQr },
                seq![ActionView::Call(qr_request_of(token))],
            ),
            Err(e) => (Session { chat_id, stage: Stage::Failed(e) }, Seq::empty()),
        },
        Stage::AwaitingQr => match qr_content_of(outcome) {
            Ok(content) => match rendered(content) {
                Ok(bytes) => (
                    Session { chat_id, stage: Stage::Delivered },
                    seq![ActionView::Photo { chat_id, bytes }],
                ),
                Err(e) => (Session { chat_id, stage: Stage::Failed(e) }, Seq::empty()),
            },
            Err(e) => (Session { chat_id, stage: Stage::Failed(e) }, Seq::empty()),
        },
        _ => (session, Seq::empty()),
    }
}

/// The credentials stored for a chat, if the chat is in the table. A chat
/// that is not is no error: it is simply not authorised.
pub fn lookup<'a>(chat_credentials: &'a LoginCredentialsMap, chat_id: i64) -> (r: Option<
    &'a LoginCredentials,
>)
    ensures
        match r {
            Some(found) => chat_credentials@.contains_key(chat_id) && *found
                == chat_credentials@[chat_id],
            None => !chat_credentials@.contains_key(chat_id),
        },
{
    chat_credentials.get(&chat_id)
}

/// Opens the session for a command that arrived from `chat_id`.
///
/// A chat without credentials is ignored in silence. For any other chat the
/// run begins with the credentials stored for that very chat.
pub fn process_commands(chat_credentials: &LoginCredentialsMap, chat_id: i64, cmd: Command) -> (r: (
    Session,
    Vec<Action>,
))
    ensures
        r.0 == opening(chat_credentials@, chat_id, cmd).0,
        actions_view(r.1@) == opening(chat_credentials@, chat_id, cmd).1,
{
    let mut actions: Vec<Action> = Vec::new();
    match lookup(chat_credentials, chat_id) {
        None => {
            assert(actions_view(actions@) =~= Seq::empty());
            (Session { chat_id, stage: Stage::Ignored }, actions)
        },
        Some(login_credentials) => match cmd {
            Command::QR => {
                actions.push(Action::Text { chat_id, text: "Calling API...".to_owned() });
                match token_request(login_credentials) {
                    Ok(request) => {
                        actions.push(Action::Call(request));
                        assert(actions_view(actions@) =~= opening(
                            chat_credentials@,
                            chat_id,
                            cmd,
                        ).1);
                        (Session { chat_id, stage: Stage::AwaitingToken }, actions)
                    },
                    Err(e) => {
                        assert(actions_view(actions@) =~= opening(
                            chat_credentials@,
                            chat_id,
                            cmd,
                        ).1);
                        (Session { chat_id, stage: Stage::Failed(e) }, actions)
                    },
                }
            },
        },
    }
}

impl Session {
    /// Whether the session waits for the outcome of a call.
    pub fn is_waiting(&self) -> (r: bool)
        ensures
            r == (self.stage == Stage::AwaitingToken || self.stage == Stage::AwaitingQr),
    {
        match self.stage {
            Stage::AwaitingToken => true,
            Stage::AwaitingQr => true,
            _ => false,
        }
    }

    /// Takes the outcome of the call that the session waits for and says what
    /// follows: the next request, the picture, or nothing where the run has
    /// failed. No picture is sent unless both exchanges and the rendering
    /// succeeded.
    pub fn advance(self, outcome: &HttpOutcome) -> (r: (Session, Vec<Action>))
        ensures
            r.0 == step(self, outcome@).0,
            actions_view(r.1@) == step(self, outcome@).1,
    {
        let chat_id = self.chat_id;
        let mut actions: Vec<Action> = Vec::new();
        let next = match self.stage {
            Stage::AwaitingToken => match fetch_auth_token(outcome) {
                Ok(token) => {
                    actions.push(Action::Call(qr_request(token.as_str())));
                    Stage::AwaitingQr
                },
                Err(e) => Stage::Failed(e),
            },
            Stage::AwaitingQr => match fetch_qr_content(outcome) {
                Ok(content) => match generate_qr(content.as_str()) {
                    Ok(bytes) => {
                        actions.push(Action::Photo { chat_id, bytes });
                        Stage::Delivered
                    },
                    Err(e) => Stage::Failed(e),
                },
                Err(e) => Stage::Failed(e),
            },
            stage => stage,
        };
        assert(actions_view(actions@) =~= step(self, outcome@).1);
        (Session { chat_id, stage: next }, actions)
    }
}

} // verus!
