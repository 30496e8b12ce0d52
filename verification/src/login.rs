//! The login request and its reply.

use vstd::prelude::*;

verus! {

/// The channels a client already knows, each with the id of the newest
/// message it has seen there.
#[derive(Debug, Clone, Copy, PartialEq, Eq)]
pub struct ChatList<'a> {
    /// Ids of the known channels.
    pub chat_ids: &'a [i64],
    /// Newest known message id of each channel, in the order of `chat_ids`.
    pub max_ids: &'a [i64],
}

/// A `ChatList` as two sequences.
pub struct ChatListView {
    pub chat_ids: Seq<i64>,
    pub max_ids: Seq<i64>,
}

impl View for ChatList<'_> {
    type V = ChatListView;

    open spec fn view(&self) -> ChatListView {
        ChatListView { chat_ids: self.chat_ids@, max_ids: self.max_ids@ }
    }
}

/// What a login sends.
#[derive(Debug, Clone, Copy, PartialEq, Eq)]
pub struct Request<'a> {
    pub chat_list: ChatList<'a>,
}

/// A `Request` by the view of its parts.
pub struct RequestView {
    pub chat_list: ChatListView,
}

impl View for Request<'_> {
    type V = RequestView;

    open spec fn view(&self) -> RequestView {
        RequestView { chat_list: self.chat_list@ }
    }
}

/// The first page of the channel list, as the login reply carries it.
#[derive(Debug, Clone, PartialEq)]
pub struct FirstPage<D> {
    /// The channels of this page.
    pub chat_datas: Vec<D>,
    /// Where the next page starts, if the server moved the cursor.
    pub last_token_id: Option<i64>,
    /// Watermark to hand back with the next request.
    pub last_chat_id: i64,
}

/// What a login answers.
#[derive(Debug, Clone, PartialEq)]
pub struct Response<D> {
    pub chat_list: FirstPage<D>,
}

} // verus!
