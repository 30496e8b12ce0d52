//! The channel list as a sequence of pages, fetched one request per pull.
//!
//! `Pages` holds what survives between rounds: the request that the next
//! pull sends, and whether the sequence has ended. A pull asks it for the
//! command to send; the reply is handed back to it, and it decides what the
//! consumer gets and what the next round sends.

use crate::command::{
    lemma_wire_names_fit, Command, CommandView, Payload, PayloadView, LOAD_CHANNEL_LIST,
};
use crate::error::RequestResult;
use crate::load_channel_list::{Request, RequestView, Response};
use vstd::prelude::*;

verus! {

/// Outcome of one round: a page, or the failure that ends the sequence.
pub type PageResult<D> = RequestResult<Response<D>>;

/// Whether nothing follows `reply`: it is a failure, or the last page.
pub open spec fn is_final<D>(reply: PageResult<D>) -> bool {
    match reply {
        Ok(page) => page.eof,
        Err(_) => true,
    }
}

/// Whether `next` is the request that follows `request` once `reply` has
/// answered it: the reply is a page, the watermark of `next` is that of the
/// page, its continuation cursor is that of the page where the page has one
/// and that of `request` where it has none, and its lists are those of
/// `request`.
pub open spec fn follows<D>(request: RequestView, reply: PageResult<D>, next: RequestView) -> bool {
    &&& reply matches Ok(page)
    &&& next.last_chat_id == page.last_chat_id
    &&& next.last_token_id == match page.last_token_id {
        Some(id) => id,
        None => request.last_token_id,
    }
    &&& next.chat_ids == request.chat_ids
    &&& next.max_ids == request.max_ids
}

/// State of a page sequence between two rounds.
pub struct Paging {
    /// The request that the next pull sends.
    pub request: RequestView,
    /// Whether the sequence has ended.
    pub ended: bool,
}

impl Paging {
    /// What a pull sends: the pending request, or nothing once the sequence
    /// has ended.
    pub open spec fn poll(self) -> Option<RequestView> {
        if self.ended {
            None
        } else {
            Some(self.request)
        }
    }

    /// What the consumer gets for `reply`: the reply itself, or nothing once
    /// the sequence has ended.
    pub open spec fn yields<D>(self, reply: PageResult<D>) -> Option<PageResult<D>> {
        if self.ended {
            None
        } else {
            Some(reply)
        }
    }

    /// State after `reply` has answered the pending request. A page moves the
    /// cursor and ends the sequence if it is the last one; a failure ends it.
    pub open spec fn accept<D>(self, reply: PageResult<D>) -> Paging {
        if self.ended {
            self
        } else {
            match reply {
                Ok(page) => Paging {
                    request: self.request.advance(page.last_token_id, page.last_chat_id),
                    ended: page.eof,
                },
                Err(_) => Paging { request: self.request, ended: true },
            }
        }
    }
}

/// What a run of rounds did.
pub struct Trace<D> {
    /// The requests sent, in order.
    pub sent: Seq<RequestView>,
    /// What the consumer got, in order.
    pub yielded: Seq<PageResult<D>>,
    /// The state afterwards.
    pub state: Paging,
}

impl Paging {
    /// The rounds that take place from this state when the consumer pulls
    /// once for each of `replies` and the session answers the pulls with
    /// them, in order: each round sends what `poll` gives, hands out what
    /// `yields` gives, and goes on from what `accept` gives. A pull on an
    /// ended sequence sends nothing, so it leaves its reply unused.
    pub open spec fn run<D>(self, replies: Seq<PageResult<D>>) -> Trace<D>
        decreases replies.len(),
    {
        if replies.len() == 0 {
            Trace { sent: Seq::empty(), yielded: Seq::empty(), state: self }
        } else {
            let before = self.run(replies.drop_last());
            let reply = replies.last();
            match (before.state.poll(), before.state.yields(reply)) {
                (Some(request), Some(item)) => Trace {
                    sent: before.sent.push(request),
                    yielded: before.yielded.push(item),
                    state: before.state.accept(reply),
                },
                _ => before,
            }
        }
    }

    /// Every request sent gives the consumer one element, and the elements
    /// are the replies themselves, in order and from the first on. While the
    /// sequence has not ended, no reply is left unused.
    pub proof fn lemma_one_element_per_request<D>(self, replies: Seq<PageResult<D>>)
        ensures
            self.run(replies).sent.len() == self.run(replies).yielded.len(),
            self.run(replies).yielded.len() <= replies.len(),
            self.run(replies).yielded == replies.take(self.run(replies).yielded.len() as int),
            !self.run(replies).state.ended ==> self.run(replies).yielded.len() == replies.len(),
        decreases replies.len(),
    {
        if replies.len() > 0 {
            let earlier = replies.drop_last();
            self.lemma_one_element_per_request(earlier);
            let before = self.run(earlier);
            if before.state.poll() is Some {
                assert(before.yielded.push(replies.last()) =~= replies.take(replies.len() as int));
            } else {
                assert(earlier.take(before.yielded.len() as int) =~= replies.take(
                    before.yielded.len() as int,
                ));
            }
        } else {
            assert(self.run(replies).yielded =~= replies.take(0));
        }
    }

    /// Once the sequence has ended nothing is sent and nothing handed out,
    /// however often the consumer pulls.
    pub proof fn lemma_ended_stays_silent<D>(self, replies: Seq<PageResult<D>>)
        requires
            self.ended,
        ensures
            self.run(replies) == (Trace::<D> {
                sent: Seq::empty(),
                yielded: Seq::empty(),
                state: self,
            }),
        decreases replies.len(),
    {
        if replies.len() > 0 {
            self.lemma_ended_stays_silent(replies.drop_last());
        }
    }

    /// The sequence goes on exactly as long as no final reply has come: no
    /// element before the last one handed out is final, and the sequence has
    /// ended if and only if the last one is.
    pub proof fn lemma_stops_at_first_final<D>(self, replies: Seq<PageResult<D>>)
        requires
            !self.ended,
        ensures
            forall|i: int|
                0 <= i < self.run(replies).yielded.len() - 1 ==> !is_final(#[trigger] replies[i]),
            self.run(replies).state.ended <==> self.run(replies).yielded.len() > 0 && is_final(
                replies[self.run(replies).yielded.len() - 1],
            ),
        decreases replies.len(),
    {
        if replies.len() > 0 {
            let earlier = replies.drop_last();
            self.lemma_stops_at_first_final(earlier);
            self.lemma_one_element_per_request(earlier);
            let before = self.run(earlier);
            let count = self.run(replies).yielded.len();
            assert forall|i: int| 0 <= i < count - 1 implies !is_final(#[trigger] replies[i]) by {
                assert(replies[i] == earlier[i]);
            }
            if before.yielded.len() > 0 {
                assert(replies[before.yielded.len() - 1] == earlier[before.yielded.len() - 1]);
            }
        }
    }

    /// The pending request is the last one sent, moved past the page that
    /// answered it; where nothing was sent, or the last one failed, it has
    /// not moved.
    pub proof fn lemma_pending_follows_last_sent<D>(self, replies: Seq<PageResult<D>>)
        ensures
            self.run(replies).sent.len() == 0 ==> self.run(replies).state == self,
            self.run(replies).sent.len() > 0 ==> self.run(replies).state.request == {
                let last = self.run(replies).sent.len() - 1;
                match replies[last] {
                    Ok(page) => self.run(replies).sent[last].advance(
                        page.last_token_id,
                        page.last_chat_id,
                    ),
                    Err(_) => self.run(replies).sent[last],
                }
            },
        decreases replies.len(),
    {
        if replies.len() > 0 {
            let earlier = replies.drop_last();
            self.lemma_pending_follows_last_sent(earlier);
            self.lemma_one_element_per_request(earlier);
            let before = self.run(earlier);
            if before.state.poll() is None && before.sent.len() > 0 {
                assert(replies[before.sent.len() - 1] == earlier[before.sent.len() - 1]);
            }
        }
    }

    /// Request `next + 1` is request `next` moved past the page that answered
    /// it, and that answer was a page.
    pub proof fn lemma_request_follows_page<D>(self, replies: Seq<PageResult<D>>, next: int)
        requires
            0 <= next,
            next + 1 < self.run(replies).sent.len(),
        ensures
            replies[next] matches Ok(page) && self.run(replies).sent[next + 1] == self.run(
                replies,
            ).sent[next].advance(page.last_token_id, page.last_chat_id),
        decreases replies.len(),
    {
        let earlier = replies.drop_last();
        let before = self.run(earlier);
        self.lemma_one_element_per_request(earlier);
        assert(replies[next] == earlier[next]);
        if before.state.poll() is Some && next + 1 == before.sent.len() {
            self.lemma_pending_follows_last_sent(earlier);
            if self.ended {
                self.lemma_ended_stays_silent(earlier);
            } else {
                self.lemma_stops_at_first_final(earlier);
            }
        } else {
            self.lemma_request_follows_page(earlier, next);
        }
    }

    /// Every request sent carries the lists of the first one.
    pub proof fn lemma_lists_never_change<D>(self, replies: Seq<PageResult<D>>, round: int)
        requires
            0 <= round < self.run(replies).sent.len(),
        ensures
            self.run(replies).sent[round].chat_ids == self.request.chat_ids,
            self.run(replies).sent[round].max_ids == self.request.max_ids,
            self.run(replies).sent[0] == self.request,
        decreases round,
    {
        if round == 0 {
            self.lemma_first_request_is_pending(replies);
        } else {
            self.lemma_lists_never_change(replies, round - 1);
            self.lemma_request_follows_page(replies, round - 1);
        }
    }

    /// The first request sent is the pending one.
    proof fn lemma_first_request_is_pending<D>(self, replies: Seq<PageResult<D>>)
        requires
            self.run(replies).sent.len() > 0,
        ensures
            self.run(replies).sent[0] == self.request,
        decreases replies.len(),
    {
        let earlier = replies.drop_last();
        if self.run(earlier).sent.len() > 0 {
            self.lemma_first_request_is_pending(earlier);
        } else {
            self.lemma_pending_follows_last_sent(earlier);
        }
    }

    /// The first request sent is the pending one, and each later request is
    /// its predecessor moved past the page that answered it: the watermark is
    /// that of the page, the continuation cursor that of the page where it
    /// has one and the predecessor's where it has none, and the lists are
    /// unchanged.
    pub proof fn lemma_cursor_follows_pages<D>(self, replies: Seq<PageResult<D>>)
        ensures
            self.run(replies).sent.len() > 0 ==> self.run(replies).sent[0] == self.request,
            forall|i: int|
                0 <= i && i + 1 < self.run(replies).sent.len() ==> follows(
                    #[trigger] self.run(replies).sent[i],
                    replies[i],
                    self.run(replies).sent[i + 1],
                ),
    {
        if self.run(replies).sent.len() > 0 {
            self.lemma_first_request_is_pending(replies);
        }
        assert forall|i: int| 0 <= i && i + 1 < self.run(replies).sent.len() implies follows(
            #[trigger] self.run(replies).sent[i],
            replies[i],
            self.run(replies).sent[i + 1],
        ) by {
            self.lemma_request_follows_page(replies, i);
        }
    }

    /// If `replies[last]` is the first final reply, the run sends `last + 1`
    /// requests, hands out the replies up to and including that one, and
    /// ends there, whatever replies were prepared beyond it.
    pub proof fn lemma_ends_with_first_final<D>(
        self,
        replies: Seq<PageResult<D>>,
        last: int,
    )
        requires
            !self.ended,
            0 <= last < replies.len(),
            is_final(replies[last]),
            forall|i: int| 0 <= i < last ==> !is_final(#[trigger] replies[i]),
        ensures
            self.run(replies).sent.len() == last + 1,
            self.run(replies).yielded == replies.take(last + 1),
            self.run(replies).state.ended,
    {
        self.lemma_stops_at_first_final(replies);
        self.lemma_one_element_per_request(replies);
    }

    /// As long as no reply is final the run goes on: every reply is handed
    /// out, each for a request of its own, and the sequence has not ended.
    pub proof fn lemma_continues_without_final<D>(self, replies: Seq<PageResult<D>>)
        requires
            !self.ended,
            forall|i: int| 0 <= i < replies.len() ==> !is_final(#[trigger] replies[i]),
        ensures
            self.run(replies).sent.len() == replies.len(),
            self.run(replies).yielded == replies,
            !self.run(replies).state.ended,
    {
        self.lemma_stops_at_first_final(replies);
        self.lemma_one_element_per_request(replies);
        assert(replies.take(replies.len() as int) =~= replies);
    }

    /// A failure in the middle of the pages: if round `failed` is the first
    /// to fail and no page before it was the last, the consumer gets the
    /// `failed` pages before it, then the failure, and no request follows.
    pub proof fn lemma_failure_ends_sequence<D>(
        self,
        replies: Seq<PageResult<D>>,
        failed: int,
    )
        requires
            !self.ended,
            0 <= failed < replies.len(),
            replies[failed] is Err,
            forall|i: int| 0 <= i < failed ==> !is_final(#[trigger] replies[i]),
        ensures
            self.run(replies).sent.len() == failed + 1,
            self.run(replies).yielded.len() == failed + 1,
            forall|i: int| 0 <= i < failed ==> #[trigger] self.run(replies).yielded[i] is Ok,
            self.run(replies).yielded[failed] == replies[failed],
            self.run(replies).state.ended,
    {
        self.lemma_ends_with_first_final(replies, failed);
    }
}

/// A page sequence in progress.
#[derive(Debug)]
pub struct Pages<'a> {
    request: Request<'a>,
    ended: bool,
}

impl<'a> Pages<'a> {
    /// The state of this sequence.
    pub closed spec fn state(self) -> Paging {
        Paging { request: self.request@, ended: self.ended }
    }
}

impl View for Pages<'_> {
    type V = Paging;

    open spec fn view(&self) -> Paging {
        self.state()
    }
}

impl<'a> Pages<'a> {
    /// A sequence whose first pull sends `request`.
    pub fn new(request: Request<'a>) -> (pages: Pages<'a>)
        ensures
            pages@ == (Paging { request: request@, ended: false }),
    {
        Pages { request, ended: false }
    }

    /// Whether the sequence has ended.
    pub fn is_ended(&self) -> (ended: bool)
        ensures
            ended == self@.ended,
    {
        self.ended
    }

    /// The command that the next pull sends, or nothing once the sequence has
    /// ended.
    pub fn next_command(&self) -> (command: Option<Command<'a>>)
        ensures
            match self@.poll() {
                Some(request) => command matches Some(c) && c@ == (CommandView {
                    name: LOAD_CHANNEL_LIST@,
                    payload: PayloadView::ChannelList(request),
                }),
                None => command is None,
            },
    {
        if self.ended {
            None
        } else {
            proof {
                lemma_wire_names_fit();
            }
            Some(Command::named(LOAD_CHANNEL_LIST, Payload::ChannelList(self.request)))
        }
    }

    /// Takes the reply to the command that `next_command` gave, and returns
    /// what the consumer gets for it. After a page the next pull continues
    /// behind it, unless it was the last; after a failure nothing follows.
    /// Once the sequence has ended a reply changes nothing and gives nothing.
    pub fn accept<D>(&mut self, reply: PageResult<D>) -> (item: Option<PageResult<D>>)
        ensures
            final(self)@ == old(self)@.accept(reply),
            item == old(self)@.yields(reply),
    {
        if self.ended {
            return None;
        }
        match &reply {
            Ok(page) => {
                self.request.advance(page);
                self.ended = page.eof;
            },
            Err(_) => {
                self.ended = true;
            },
        }
        Some(reply)
    }
}

} // verus!
