//! Named commands and what they carry.

use crate::load_channel_list;
use crate::login;
use crate::method::{fits, method_new, method_text};
use futures_loco_protocol::loco_protocol::command::Method;
use vstd::prelude::*;

verus! {

/// Liveness probe.
pub const PING: &'static str = "PING";

/// Status update.
pub const SET_STATUS: &'static str = "SETST";

/// Login that also opens the channel list.
pub const LOGIN_LIST: &'static str = "LOGINLIST";

/// Continuation of the channel list.
pub const LOAD_CHANNEL_LIST: &'static str = "LCHATLIST";

/// Trailer lookup.
pub const GET_TRAILER: &'static str = "GETTRAILER";

/// A value of a document field.
#[derive(Debug, Clone, Copy, PartialEq, Eq)]
pub enum Value<'a> {
    Int32(i32),
    Text(&'a str),
}

/// A `Value` with text as a sequence of characters.
pub enum ValueView {
    Int32(i32),
    Text(Seq<char>),
}

impl View for Value<'_> {
    type V = ValueView;

    open spec fn view(&self) -> ValueView {
        match *self {
            Value::Int32(v) => ValueView::Int32(v),
            Value::Text(s) => ValueView::Text(s@),
        }
    }
}

/// One keyed field of a document.
#[derive(Debug, Clone, Copy, PartialEq, Eq)]
pub struct Field<'a> {
    pub key: &'static str,
    pub value: Value<'a>,
}

/// A `Field` by the view of its parts.
pub struct FieldView {
    pub key: Seq<char>,
    pub value: ValueView,
}

impl View for Field<'_> {
    type V = FieldView;

    open spec fn view(&self) -> FieldView {
        FieldView { key: self.key@, value: self.value@ }
    }
}

/// What a command carries, before encoding.
#[derive(Debug, Clone, PartialEq, Eq)]
pub enum Payload<'a> {
    /// A document given field by field, in order.
    Document(Vec<Field<'a>>),
    /// A login request.
    Login(login::Request<'a>),
    /// A request for the next page of the channel list.
    ChannelList(load_channel_list::Request<'a>),
}

/// A `Payload` by the view of its parts.
pub enum PayloadView {
    Document(Seq<FieldView>),
    Login(login::RequestView),
    ChannelList(load_channel_list::RequestView),
}

impl View for Payload<'_> {
    type V = PayloadView;

    open spec fn view(&self) -> PayloadView {
        match *self {
            Payload::Document(fields) => PayloadView::Document(fields@.map_values(|f: Field| f@)),
            Payload::Login(req) => PayloadView::Login(req@),
            Payload::ChannelList(req) => PayloadView::ChannelList(req@),
        }
    }
}

/// A named request, ready to be encoded and sent.
#[derive(Debug)]
pub struct Command<'a> {
    pub method: Method,
    pub payload: Payload<'a>,
}

/// A `Command` as its name and the view of its payload.
pub struct CommandView {
    pub name: Seq<char>,
    pub payload: PayloadView,
}

impl View for Command<'_> {
    type V = CommandView;

    open spec fn view(&self) -> CommandView {
        CommandView { name: method_text(self.method), payload: self.payload@ }
    }
}

/// Every name this crate sends is short enough to be the name of a command.
pub proof fn lemma_wire_names_fit()
    ensures
        fits(PING),
        fits(SET_STATUS),
        fits(LOGIN_LIST),
        fits(LOAD_CHANNEL_LIST),
        fits(GET_TRAILER),
{
    broadcast use vstd::string::is_ascii_spec_bytes;

    reveal_strlit("PING");
    reveal_strlit("SETST");
    reveal_strlit("LOGINLIST");
    reveal_strlit("LCHATLIST");
    reveal_strlit("GETTRAILER");
    assert(vstd::string::is_ascii(PING));
    assert(vstd::string::is_ascii(SET_STATUS));
    assert(vstd::string::is_ascii(LOGIN_LIST));
    assert(vstd::string::is_ascii(LOAD_CHANNEL_LIST));
    assert(vstd::string::is_ascii(GET_TRAILER));
}

impl<'a> Command<'a> {
    /// The command named `name` that carries `payload`, unless the name is
    /// too long to be one.
    pub fn new(name: &str, payload: Payload<'a>) -> (command: Option<Command<'a>>)
        ensures
            command is Some <==> fits(name),
            command matches Some(c) ==> c@ == (CommandView { name: name@, payload: payload@ }),
    {
        match method_new(name) {
            Some(method) => Some(Command { method, payload }),
            None => None,
        }
    }

    /// The command named `name` that carries `payload`.
    pub(crate) fn named(name: &str, payload: Payload<'a>) -> (command: Command<'a>)
        requires
            fits(name),
        ensures
            command@ == (CommandView { name: name@, payload: payload@ }),
    {
        Command::new(name, payload).unwrap()
    }
}

} // verus!
