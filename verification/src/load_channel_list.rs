//! One round of channel-list retrieval: its request, its reply, and how the
//! reply moves the cursor of the next request.

use crate::login;
use vstd::prelude::*;

verus! {

/// Request for the next page of the channel list.
#[derive(Debug, Clone, Copy, PartialEq, Eq)]
pub struct Request<'a> {
    /// Ids of the channels the client already knows.
    pub chat_ids: &'a [i64],
    /// Newest known message id of each channel, in the order of `chat_ids`.
    pub max_ids: &'a [i64],
    /// Continuation cursor.
    pub last_token_id: i64,
    /// Watermark of the page received last.
    pub last_chat_id: i64,
}

/// A `Request` with its lists as sequences.
pub struct RequestView {
    pub chat_ids: Seq<i64>,
    pub max_ids: Seq<i64>,
    pub last_token_id: i64,
    pub last_chat_id: i64,
}

impl View for Request<'_> {
    type V = RequestView;

    open spec fn view(&self) -> RequestView {
        RequestView {
            chat_ids: self.chat_ids@,
            max_ids: self.max_ids@,
            last_token_id: self.last_token_id,
            last_chat_id: self.last_chat_id,
        }
    }
}

/// One page of the channel list.
#[derive(Debug, Clone, PartialEq)]
pub struct Response<D> {
    /// The channels of this page.
    pub chat_datas: Vec<D>,
    /// Where the next page starts, if the server moved the cursor.
    pub last_token_id: Option<i64>,
    /// Watermark to hand back with the next request.
    pub last_chat_id: i64,
    /// Set on the last page.
    pub eof: bool,
}

impl RequestView {
    /// The request that follows a login: the lists that the login sent, and
    /// the cursor fields of its reply, with zero as the continuation cursor
    /// where the reply has none.
    pub open spec fn first(
        login: login::RequestView,
        last_token_id: Option<i64>,
        last_chat_id: i64,
    ) -> RequestView {
        RequestView {
            chat_ids: login.chat_list.chat_ids,
            max_ids: login.chat_list.max_ids,
            last_token_id: match last_token_id {
                Some(id) => id,
                None => 0,
            },
            last_chat_id,
        }
    }

    /// The request that follows this one once a page with the given cursor
    /// fields has arrived: the watermark is always taken from the page, the
    /// continuation cursor only where the page supplies one.
    pub open spec fn advance(self, last_token_id: Option<i64>, last_chat_id: i64) -> RequestView {
        RequestView {
            chat_ids: self.chat_ids,
            max_ids: self.max_ids,
            last_token_id: match last_token_id {
                Some(id) => id,
                None => self.last_token_id,
            },
            last_chat_id,
        }
    }
}

impl<'a> Request<'a> {
    /// The request for the page behind `page`, the first page that the login
    /// `login` was answered with.
    pub fn first<D>(
        login: &login::Request<'a>,
        page: &login::FirstPage<D>,
    ) -> (request: Request<'a>)
        ensures
            request@ == RequestView::first(login@, page.last_token_id, page.last_chat_id),
    {
        Request {
            chat_ids: login.chat_list.chat_ids,
            max_ids: login.chat_list.max_ids,
            last_token_id: match page.last_token_id {
                Some(id) => id,
                None => 0,
            },
            last_chat_id: page.last_chat_id,
        }
    }

    /// Moves the cursor past `page`.
    pub fn advance<D>(&mut self, page: &Response<D>)
        ensures
            final(self)@ == old(self)@.advance(page.last_token_id, page.last_chat_id),
    {
        if let Some(id) = page.last_token_id {
            self.last_token_id = id;
        }
        self.last_chat_id = page.last_chat_id;
    }
}

} // verus!
