//! Request/response core of a chat session: the commands a session issues,
//! and the paginated retrieval of the channel list that follows a login.
//!
//! Nothing here touches the network. Each operation yields the command to
//! send; the caller carries it over an established session and hands back
//! what the session reported.
//!
//! - `session::TalkSession` names the operations. `ping`, `set_status` and
//!   `get_trailer` give one command each; `channel` gives a handle and sends
//!   nothing.
//! - `TalkSession::login` gives a `session::LoginCall`. Its `command` is sent
//!   once; `complete` takes the reply and, unless the login failed, opens the
//!   `pages::Pages` that follow.
//! - Each pull on `Pages` is one round: `next_command` gives the request to
//!   send, `accept` takes its reply, moves the cursor and tells whether the
//!   sequence goes on. `pages::Paging` states the same as a state machine,
//!   with what holds of every run of it.

pub mod channel;
pub mod command;
pub mod error;
pub mod load_channel_list;
pub mod login;
pub mod method;
pub mod pages;
pub mod session;
