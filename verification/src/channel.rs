//! A channel of a session.

use futures_loco_protocol::session::LocoSession;
use vstd::prelude::*;

verus! {

/// One channel, as seen through the session that reaches it.
#[derive(Debug, Clone, Copy)]
pub struct TalkChannel<'a> {
    /// The session that the channel's commands go through.
    pub session: &'a LocoSession,
    /// The channel's id.
    pub id: i64,
}

} // verus!
