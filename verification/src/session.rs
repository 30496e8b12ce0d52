//! The commands of a session.

use crate::channel::TalkChannel;
use crate::command::{
    lemma_wire_names_fit, Command, CommandView, Field, FieldView, Payload, PayloadView, Value,
    ValueView, GET_TRAILER, LOGIN_LIST, PING, SET_STATUS,
};
use crate::error::RequestResult;
use crate::load_channel_list;
use crate::login;
use crate::pages::{Pages, Paging};
use futures_loco_protocol::session::LocoSession;
use vstd::prelude::*;

verus! {

/// `futures_loco_protocol::session::LocoSession`, an established session.
/// Nothing is said of one: it is borrowed and handed on, never used.
#[verifier::external_type_specification]
#[verifier::external_body]
pub struct ExLocoSession(futures_loco_protocol::session::LocoSession);

/// Key of the status in a status update.
pub const STATUS_KEY: &'static str = "st";

/// Key of the lookup key in a trailer lookup.
pub const TRAILER_KEY: &'static str = "k";

/// Key of the chat type in a trailer lookup.
pub const TRAILER_CHAT_TYPE_KEY: &'static str = "t";

/// Entry point to the commands of an established session. It borrows the
/// session and never closes it.
#[derive(Debug, Clone, Copy)]
pub struct TalkSession<'a>(pub &'a LocoSession);

/// A login whose request has not been answered yet.
#[derive(Debug)]
pub struct LoginCall<'a> {
    request: login::Request<'a>,
}

impl<'a> TalkSession<'a> {
    /// The liveness probe to send: a command without fields.
    pub fn ping(self) -> (command: Command<'static>)
        ensures
            command@ == (CommandView {
                name: PING@,
                payload: PayloadView::Document(Seq::empty()),
            }),
    {
        proof {
            lemma_wire_names_fit();
        }
        let fields: Vec<Field<'static>> = Vec::new();
        let payload = Payload::Document(fields);
        assert(payload@ == PayloadView::Document(Seq::empty())) by {
            assert(fields@.map_values(|f: Field| f@) =~= Seq::<FieldView>::empty());
        }
        Command::named(PING, payload)
    }

    /// The status update to send for `status`. Any value is passed on: the
    /// server decides what it accepts.
    pub fn set_status(self, status: i32) -> (command: Command<'static>)
        ensures
            command@ == (CommandView {
                name: SET_STATUS@,
                payload: PayloadView::Document(
                    seq![FieldView { key: STATUS_KEY@, value: ValueView::Int32(status) }],
                ),
            }),
    {
        proof {
            lemma_wire_names_fit();
        }
        let mut fields: Vec<Field<'static>> = Vec::new();
        fields.push(Field { key: STATUS_KEY, value: Value::Int32(status) });
        let payload = Payload::Document(fields);
        assert(payload@ == PayloadView::Document(
            seq![FieldView { key: STATUS_KEY@, value: ValueView::Int32(status) }],
        )) by {
            assert(fields@.map_values(|f: Field| f@) =~= seq![
                FieldView { key: STATUS_KEY@, value: ValueView::Int32(status) },
            ]);
        }
        Command::named(SET_STATUS, payload)
    }

    /// Opens a login with `req`. Nothing is decided yet: the call that comes
    /// back gives the command to send and takes its reply.
    pub fn login(self, req: login::Request<'a>) -> (call: LoginCall<'a>)
        ensures
            call.request() == req@,
    {
        LoginCall { request: req }
    }

    /// The lookup to send for the trailer that `key` names among chats of
    /// type `chat_type`: a document of the key, then the type.
    pub fn get_trailer<'k>(self, chat_type: i32, key: &'k str) -> (command: Command<'k>)
        ensures
            command@ == (CommandView {
                name: GET_TRAILER@,
                payload: PayloadView::Document(
                    seq![
                        FieldView { key: TRAILER_KEY@, value: ValueView::Text(key@) },
                        FieldView {
                            key: TRAILER_CHAT_TYPE_KEY@,
                            value: ValueView::Int32(chat_type),
                        },
                    ],
                ),
            }),
    {
        proof {
            lemma_wire_names_fit();
        }
        let mut fields: Vec<Field<'k>> = Vec::new();
        fields.push(Field { key: TRAILER_KEY, value: Value::Text(key) });
        fields.push(Field { key: TRAILER_CHAT_TYPE_KEY, value: Value::Int32(chat_type) });
        let payload = Payload::Document(fields);
        assert(payload@ == PayloadView::Document(
            seq![
                FieldView { key: TRAILER_KEY@, value: ValueView::Text(key@) },
                FieldView { key: TRAILER_CHAT_TYPE_KEY@, value: ValueView::Int32(chat_type) },
            ],
        )) by {
            assert(fields@.map_values(|f: Field| f@) =~= seq![
                FieldView { key: TRAILER_KEY@, value: ValueView::Text(key@) },
                FieldView { key: TRAILER_CHAT_TYPE_KEY@, value: ValueView::Int32(chat_type) },
            ]);
        }
        Command::named(GET_TRAILER, payload)
    }

    /// The channel `id` of this session. Any id gives a handle; whether the
    /// channel exists is the server's to say.
    pub fn channel(self, id: i64) -> (channel: TalkChannel<'a>)
        ensures
            channel.session == self.0,
            channel.id == id,
    {
        TalkChannel { session: self.0, id }
    }
}

impl<'a> LoginCall<'a> {
    /// The request that this login sends.
    pub closed spec fn request(self) -> login::RequestView {
        self.request@
    }

    /// The command that carries the login request.
    pub fn command(&self) -> (command: Command<'a>)
        ensures
            command@ == (CommandView {
                name: LOGIN_LIST@,
                payload: PayloadView::Login(self.request()),
            }),
    {
        proof {
            lemma_wire_names_fit();
        }
        Command::named(LOGIN_LIST, Payload::Login(self.request))
    }

    /// Takes the reply to the login request. A failure is the outcome of the
    /// whole login, and no page is ever asked for. A reply is handed on
    /// together with the pages that follow it: their first request repeats
    /// the lists of the login and starts where the reply left off, or at
    /// zero where the reply names no continuation cursor.
    pub fn complete<D>(
        self,
        reply: RequestResult<login::Response<D>>,
    ) -> (outcome: RequestResult<(login::Response<D>, Pages<'a>)>)
        ensures
            match reply {
                Ok(response) => {
                    &&& outcome matches Ok(opened)
                    &&& opened.0 == response
                    &&& opened.1@ == (Paging {
                        request: load_channel_list::RequestView::first(
                            self.request(),
                            response.chat_list.last_token_id,
                            response.chat_list.last_chat_id,
                        ),
                        ended: false,
                    })
                },
                Err(error) => outcome matches Err(e) && e == error,
            },
            reply matches Ok(response) ==> response.chat_list.last_token_id is None ==> (
                outcome matches Ok(opened) && opened.1@.request.last_token_id == 0),
    {
        match reply {
            Ok(response) => {
                let first = load_channel_list::Request::first(&self.request, &response.chat_list);
                Ok((response, Pages::new(first)))
            },
            Err(error) => Err(error),
        }
    }
}

} // verus!
