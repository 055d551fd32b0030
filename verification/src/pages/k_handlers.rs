//! The decisions of a thread's page `/k/{id}` and of a reply posted to
//! it: ids in the path are hexadecimal, a reply's id leads to its thread,
//! and a suspended user cannot reply.

use vstd::prelude::*;

use crate::numerals::{lemma_hex_round_trip, parse_hex_u32, parse_hex_u32_spec};
use crate::pages::board_handlers::SUBMISSION_PATH;
use crate::formatting::{markup_patterns_compile, sanitizable};
use crate::pages::helper::{
    NewPendingPost,
    is_pending_reply,
    post_id_hex,
    post_id_string,
    try_pending_reply,
};
use crate::pages::response::{
    BAD_REQUEST,
    FORBIDDEN,
    INTERNAL_SERVER_ERROR,
    NOT_FOUND,
    ResponseView,
    Step,
    StepView,
    bare_failure,
    fail_bare,
    joined,
    page,
    redirect,
    redirect_to,
};
use crate::text::chars_of;

verus! {

/// Where a thread's page lives.
pub const THREAD_PATH: &'static str = "/k/";

/// The post id that a hexadecimal path segment names, where it parses:
/// `u32::from_str_radix(hex, 16)` taken as an `i32`.
pub open spec fn path_post_id(hex: Seq<char>) -> Option<i32> {
    match parse_hex_u32_spec(hex) {
        Some(n) => Some(n as i32),
        None => None,
    }
}

/// Reads the post id of a hexadecimal path segment.
pub fn parse_post_id(hex: &str) -> (r: Option<i32>)
    ensures
        r == path_post_id(hex@),
{
    let cs = chars_of(hex);
    match parse_hex_u32(&cs) {
        Some(n) => Some(n as i32),
        None => None,
    }
}

/// The page of the thread `tid`, scrolled to the post `anchor`.
pub open spec fn thread_anchor_path(tid: i32, anchor: Seq<char>) -> Seq<char> {
    THREAD_PATH@ + post_id_hex(tid) + "#"@ + anchor
}

/// What a thread's page needs from outside.
#[derive(Debug, PartialEq, Eq, Structural, Clone, Copy)]
pub enum ThreadPageAction {
    /// The thread with this id.
    FetchThread { id: i32 },
    /// The replies of the thread with this id.
    FetchReplies { id: i32 },
    /// The thread of the reply with this id.
    FetchReplyThread { id: i32 },
    /// Render the page from the thread and its replies.
    Render,
}

/// What comes back from outside; `Err(())` where the call failed.
pub enum ThreadPageEvent {
    Thread(Result<(), ()>),
    Replies(Result<(), ()>),
    ReplyThread(Result<i32, ()>),
    Rendered(Result<(), ()>),
}

/// A request for `/k/{id_hex}` and what has come back so far.
pub struct ThreadPage {
    pub id_hex: String,
    pub thread: Option<Result<(), ()>>,
    pub replies: Option<Result<(), ()>>,
    pub reply_thread: Option<Result<i32, ()>>,
    pub rendered: Option<Result<(), ()>>,
}

impl ThreadPage {
    /// A request for the page `/k/{id_hex}`, nothing known yet.
    pub fn new(id_hex: String) -> (r: Self)
        ensures
            r.id_hex == id_hex,
            r.thread is None,
            r.replies is None,
            r.reply_thread is None,
            r.rendered is None,
    {
        ThreadPage { id_hex, thread: None, replies: None, reply_thread: None, rendered: None }
    }

    /// The request once `event` has come back.
    pub open spec fn recorded(self, event: ThreadPageEvent) -> Self {
        match event {
            ThreadPageEvent::Thread(r) => ThreadPage { thread: Some(r), ..self },
            ThreadPageEvent::Replies(r) => ThreadPage { replies: Some(r), ..self },
            ThreadPageEvent::ReplyThread(r) => ThreadPage { reply_thread: Some(r), ..self },
            ThreadPageEvent::Rendered(r) => ThreadPage { rendered: Some(r), ..self },
        }
    }

    /// The next step, from what has come back.
    pub open spec fn next_step(self) -> StepView<ThreadPageAction> {
        match path_post_id(self.id_hex@) {
            None => StepView::Respond(bare_failure(BAD_REQUEST)),
            Some(id) => match self.thread {
                None => StepView::Do(ThreadPageAction::FetchThread { id }),
                Some(Ok(_)) => match self.replies {
                    None => StepView::Do(ThreadPageAction::FetchReplies { id }),
                    Some(Err(_)) => StepView::Respond(bare_failure(INTERNAL_SERVER_ERROR)),
                    Some(Ok(_)) => match self.rendered {
                        None => StepView::Do(ThreadPageAction::Render),
                        Some(Ok(_)) => StepView::Respond(ResponseView::Page),
                        Some(Err(_)) => StepView::Respond(bare_failure(INTERNAL_SERVER_ERROR)),
                    },
                },
                Some(Err(_)) => match self.reply_thread {
                    None => StepView::Do(ThreadPageAction::FetchReplyThread { id }),
                    Some(Ok(tid)) => StepView::Respond(
                        redirect_to(thread_anchor_path(tid, self.id_hex@), true),
                    ),
                    Some(Err(_)) => StepView::Respond(bare_failure(NOT_FOUND)),
                },
            },
        }
    }

    /// The next step, from what has come back.
    pub fn decide(&self) -> (r: Step<ThreadPageAction>)
        ensures
            r@ == self.next_step(),
    {
        let id = match parse_post_id(self.id_hex.as_str()) {
            None => return fail_bare(BAD_REQUEST),
            Some(id) => id,
        };
        match &self.thread {
            None => Step::Do(ThreadPageAction::FetchThread { id }),
            Some(Ok(_)) => match &self.replies {
                None => Step::Do(ThreadPageAction::FetchReplies { id }),
                Some(Err(_)) => fail_bare(INTERNAL_SERVER_ERROR),
                Some(Ok(_)) => match &self.rendered {
                    None => Step::Do(ThreadPageAction::Render),
                    Some(Ok(_)) => page(),
                    Some(Err(_)) => fail_bare(INTERNAL_SERVER_ERROR),
                },
            },
            Some(Err(_)) => match &self.reply_thread {
                None => Step::Do(ThreadPageAction::FetchReplyThread { id }),
                Some(Ok(tid)) => {
                    let tid_hex = post_id_string(*tid);
                    let path = joined(THREAD_PATH, tid_hex.as_str());
                    let path = joined(path.as_str(), "#");
                    let path = joined(path.as_str(), self.id_hex.as_str());
                    redirect(path, true)
                },
                Some(Err(_)) => fail_bare(NOT_FOUND),
            },
        }
    }

    /// Takes in what came back from outside and gives the next step.
    pub fn advance(&mut self, event: ThreadPageEvent) -> (r: Step<ThreadPageAction>)
        ensures
            *final(self) == old(self).recorded(event),
            r@ == final(self).next_step(),
    {
        match event {
            ThreadPageEvent::Thread(r) => self.thread = Some(r),
            ThreadPageEvent::Replies(r) => self.replies = Some(r),
            ThreadPageEvent::ReplyThread(r) => self.reply_thread = Some(r),
            ThreadPageEvent::Rendered(r) => self.rendered = Some(r),
        }
        self.decide()
    }
}

/// What a reply submission needs from outside.
#[derive(Debug, PartialEq, Eq, Structural, Clone, Copy)]
pub enum ReplySubmissionAction {
    /// Whether the author is suspended.
    CheckSuspension,
    /// Store the reply to the thread `tid` that `pending_post` gives as
    /// pending; its id comes back.
    SubmitReply { tid: i32 },
}

/// What comes back from outside; `Err(())` where the call failed.
pub enum ReplySubmissionEvent {
    Suspension(Result<bool, ()>),
    Submitted(Result<String, ()>),
}

/// A reply by `uid` posted to `/k/{tid_hex}`, and what has come back so
/// far.
pub struct ReplySubmission {
    pub uid: i32,
    pub comment: String,
    pub tid_hex: String,
    pub suspended: Option<Result<bool, ()>>,
    pub submitted: Option<Result<String, ()>>,
}

impl ReplySubmission {
    /// A reply by `uid` to the thread `/k/{tid_hex}`, nothing known yet.
    pub fn new(uid: i32, tid_hex: String, comment: String) -> (r: Self)
        ensures
            r.uid == uid,
            r.comment == comment,
            r.tid_hex == tid_hex,
            r.suspended is None,
            r.submitted is None,
    {
        ReplySubmission { uid, comment, tid_hex, suspended: None, submitted: None }
    }

    /// The submission once `event` has come back.
    pub open spec fn recorded(self, event: ReplySubmissionEvent) -> Self {
        match event {
            ReplySubmissionEvent::Suspension(r) => ReplySubmission { suspended: Some(r), ..self },
            ReplySubmissionEvent::Submitted(r) => ReplySubmission { submitted: Some(r), ..self },
        }
    }

    /// The next step, from what has come back.
    pub open spec fn next_step(self) -> StepView<ReplySubmissionAction> {
        match path_post_id(self.tid_hex@) {
            None => StepView::Respond(bare_failure(BAD_REQUEST)),
            Some(tid) => match self.suspended {
                None => StepView::Do(ReplySubmissionAction::CheckSuspension),
                Some(Ok(true)) => StepView::Respond(bare_failure(FORBIDDEN)),
                Some(Err(_)) => StepView::Respond(bare_failure(INTERNAL_SERVER_ERROR)),
                Some(Ok(false)) => match self.submitted {
                    None => StepView::Do(ReplySubmissionAction::SubmitReply { tid }),
                    Some(Ok(id)) => StepView::Respond(redirect_to(SUBMISSION_PATH@ + id@, false)),
                    Some(Err(_)) => StepView::Respond(bare_failure(INTERNAL_SERVER_ERROR)),
                },
            },
        }
    }

    /// The next step, from what has come back.
    pub fn decide(&self) -> (r: Step<ReplySubmissionAction>)
        ensures
            r@ == self.next_step(),
    {
        let tid = match parse_post_id(self.tid_hex.as_str()) {
            None => return fail_bare(BAD_REQUEST),
            Some(tid) => tid,
        };
        match &self.suspended {
            None => Step::Do(ReplySubmissionAction::CheckSuspension),
            Some(Ok(true)) => fail_bare(FORBIDDEN),
            Some(Err(_)) => fail_bare(INTERNAL_SERVER_ERROR),
            Some(Ok(false)) => match &self.submitted {
                None => Step::Do(ReplySubmissionAction::SubmitReply { tid }),
                Some(Ok(id)) => redirect(joined(SUBMISSION_PATH, id.as_str()), false),
                Some(Err(_)) => fail_bare(INTERNAL_SERVER_ERROR),
            },
        }
    }

    /// The pending reply that `SubmitReply` stores: by the author, to the
    /// thread the path names, with the comment formatted; `None` where the
    /// path names no thread or the comment cannot be formatted.
    pub fn pending_post(&self) -> (r: Option<NewPendingPost>)
        ensures
            r is Some <==> (path_post_id(self.tid_hex@) is Some && markup_patterns_compile()
                && sanitizable(self.comment@)),
            r matches Some(p) ==> is_pending_reply(
                p,
                self.uid,
                path_post_id(self.tid_hex@)->0,
                self.comment@,
            ),
    {
        match parse_post_id(self.tid_hex.as_str()) {
            Some(tid) => try_pending_reply(self.uid, tid, self.comment.as_str()),
            None => None,
        }
    }

    /// Takes in what came back from outside and gives the next step.
    pub fn advance(&mut self, event: ReplySubmissionEvent) -> (r: Step<ReplySubmissionAction>)
        ensures
            *final(self) == old(self).recorded(event),
            r@ == final(self).next_step(),
    {
        match event {
            ReplySubmissionEvent::Suspension(r) => self.suspended = Some(r),
            ReplySubmissionEvent::Submitted(r) => self.submitted = Some(r),
        }
        self.decide()
    }
}

/// A suspended user's reply to a well-formed thread id is refused with
/// `403 Forbidden`, whatever else has come back.
pub proof fn lemma_suspended_user_cannot_reply(s: ReplySubmission)
    requires
        path_post_id(s.tid_hex@) is Some,
        s.suspended == Some(Ok::<bool, ()>(true)),
    ensures
        s.next_step() == StepView::<ReplySubmissionAction>::Respond(bare_failure(FORBIDDEN)),
{
}


/// A post's link leads back to it: the hexadecimal id that the board
/// writes in a post's URL reads back as the same post id, for every id.
pub proof fn lemma_post_link_round_trip(id: i32)
    ensures
        path_post_id(post_id_hex(id)) == Some(id),
{
    lemma_hex_round_trip(id as u32, 3);
    assert((id as u32) as i32 == id) by (bit_vector);
}

} // verus!
