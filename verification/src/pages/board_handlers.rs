//! The decisions taken on a new thread, posted from a board's page or
//! from the home page: a suspended user is refused, the announcement
//! board `g` takes threads from a board's page only while it is open,
//! and an accepted thread waits for confirmation at `/submission/{id}`.

use vstd::prelude::*;

use crate::moderation::same_text;
use crate::formatting::{markup_patterns_compile, sanitizable};
use crate::pages::helper::{
    DEFAULT_PAGE_SIZE,
    NewPendingPost,
    ThreadSerializable,
    is_pending_thread,
    page_limit,
    try_pending_thread,
};
use crate::pages::response::{
    FORBIDDEN,
    INTERNAL_SERVER_ERROR,
    INTERNAL_SERVER_ERROR_REPLY,
    NOT_FOUND,
    ResponseView,
    Step,
    StepView,
    UNAUTHORIZED,
    USER_SUSPENDED_REPLY,
    bare_failure,
    fail,
    fail_bare,
    failure,
    joined,
    page,
    redirect,
    redirect_to,
};

verus! {

/// The board that takes threads only while the setting `G_OPEN` is on.
pub const GUARDED_BOARD: &'static str = "g";

/// The reply to a thread posted on a closed board.
pub const BOARD_CLOSED_REPLY: &'static str = "আপনি এই বোর্ডে পোস্ট করতে পারবেন না।";

/// Where an accepted post waits for confirmation.
pub const SUBMISSION_PATH: &'static str = "/submission/";

/// What the thread submission needs from outside.
#[derive(Debug, PartialEq, Eq, Structural, Clone, Copy)]
pub enum ThreadSubmissionAction {
    /// Whether the author is suspended.
    CheckSuspension,
    /// Whether the board `g` is open.
    CheckBoardOpen,
    /// Store the thread that `pending_post` gives as pending; its id
    /// comes back.
    SubmitThread,
}

/// What comes back from outside; `Err(())` where the call failed.
pub enum ThreadSubmissionEvent {
    Suspension(Result<bool, ()>),
    BoardOpen(Result<bool, ()>),
    Submitted(Result<String, ()>),
}

/// A thread submission: its author, board, subject and comment, whether
/// the board `g` is guarded for it (it is for threads posted from a
/// board's page), and what has come back so far.
pub struct ThreadSubmission {
    pub uid: i32,
    pub subject: String,
    pub comment: String,
    pub board: String,
    pub guard_board: bool,
    pub suspended: Option<Result<bool, ()>>,
    pub board_open: Option<Result<bool, ()>>,
    pub submitted: Option<Result<String, ()>>,
}

impl ThreadSubmission {
    /// A submission by `uid` to `board`, nothing known yet.
    pub fn new(uid: i32, board: String, guard_board: bool, subject: String, comment: String) -> (r: Self)
        ensures
            r.uid == uid,
            r.subject == subject,
            r.comment == comment,
            r.board == board,
            r.guard_board == guard_board,
            r.suspended is None,
            r.board_open is None,
            r.submitted is None,
    {
        ThreadSubmission {
            uid,
            subject,
            comment,
            board,
            guard_board,
            suspended: None,
            board_open: None,
            submitted: None,
        }
    }

    /// The submission once `event` has come back.
    pub open spec fn recorded(self, event: ThreadSubmissionEvent) -> Self {
        match event {
            ThreadSubmissionEvent::Suspension(r) => ThreadSubmission { suspended: Some(r), ..self },
            ThreadSubmissionEvent::BoardOpen(r) => ThreadSubmission { board_open: Some(r), ..self },
            ThreadSubmissionEvent::Submitted(r) => ThreadSubmission { submitted: Some(r), ..self },
        }
    }

    /// Whether the thread goes to the guarded board `g` from a board's page.
    pub open spec fn guarded(self) -> bool {
        self.guard_board && self.board@ == GUARDED_BOARD@
    }

    /// The step once the board is known to take the thread.
    pub open spec fn submit_step(self) -> StepView<ThreadSubmissionAction> {
        match self.submitted {
            None => StepView::Do(ThreadSubmissionAction::SubmitThread),
            Some(Ok(id)) => StepView::Respond(redirect_to(SUBMISSION_PATH@ + id@, false)),
            Some(Err(_)) => StepView::Respond(failure(INTERNAL_SERVER_ERROR, INTERNAL_SERVER_ERROR_REPLY@)),
        }
    }

    /// The next step, from what has come back.
    pub open spec fn next_step(self) -> StepView<ThreadSubmissionAction> {
        match self.suspended {
            None => StepView::Do(ThreadSubmissionAction::CheckSuspension),
            Some(Err(_)) => StepView::Respond(failure(INTERNAL_SERVER_ERROR, INTERNAL_SERVER_ERROR_REPLY@)),
            Some(Ok(true)) => StepView::Respond(failure(FORBIDDEN, USER_SUSPENDED_REPLY@)),
            Some(Ok(false)) => if self.guarded() {
                match self.board_open {
                    None => StepView::Do(ThreadSubmissionAction::CheckBoardOpen),
                    Some(Err(_)) => StepView::Respond(failure(INTERNAL_SERVER_ERROR, INTERNAL_SERVER_ERROR_REPLY@)),
                    Some(Ok(false)) => StepView::Respond(failure(UNAUTHORIZED, BOARD_CLOSED_REPLY@)),
                    Some(Ok(true)) => self.submit_step(),
                }
            } else {
                self.submit_step()
            },
        }
    }

    fn decide_submit(&self) -> (r: Step<ThreadSubmissionAction>)
        ensures
            r@ == self.submit_step(),
    {
        match &self.submitted {
            None => Step::Do(ThreadSubmissionAction::SubmitThread),
            Some(Ok(id)) => redirect(joined(SUBMISSION_PATH, id.as_str()), false),
            Some(Err(_)) => fail(INTERNAL_SERVER_ERROR, INTERNAL_SERVER_ERROR_REPLY),
        }
    }

    /// The next step, from what has come back.
    pub fn decide(&self) -> (r: Step<ThreadSubmissionAction>)
        ensures
            r@ == self.next_step(),
    {
        match &self.suspended {
            None => Step::Do(ThreadSubmissionAction::CheckSuspension),
            Some(Err(_)) => fail(INTERNAL_SERVER_ERROR, INTERNAL_SERVER_ERROR_REPLY),
            Some(Ok(true)) => fail(FORBIDDEN, USER_SUSPENDED_REPLY),
            Some(Ok(false)) => {
                if self.guard_board && same_text(self.board.as_str(), GUARDED_BOARD) {
                    match &self.board_open {
                        None => Step::Do(ThreadSubmissionAction::CheckBoardOpen),
                        Some(Err(_)) => fail(INTERNAL_SERVER_ERROR, INTERNAL_SERVER_ERROR_REPLY),
                        Some(Ok(false)) => fail(UNAUTHORIZED, BOARD_CLOSED_REPLY),
                        Some(Ok(true)) => self.decide_submit(),
                    }
                } else {
                    self.decide_submit()
                }
            },
        }
    }

    /// The pending thread that `SubmitThread` stores: the author, subject
    /// and board of the submission, with its comment formatted; `None`
    /// where the comment cannot be formatted.
    pub fn pending_post(&self) -> (r: Option<NewPendingPost>)
        ensures
            r is Some <==> (markup_patterns_compile() && sanitizable(self.comment@)),
            r matches Some(p) ==> is_pending_thread(p, self.uid, self.subject@, self.comment@, self.board@),
    {
        try_pending_thread(self.uid, self.subject.as_str(), self.comment.as_str(), self.board.as_str())
    }

    /// Takes in what came back from outside and gives the next step.
    pub fn advance(&mut self, event: ThreadSubmissionEvent) -> (r: Step<ThreadSubmissionAction>)
        ensures
            *final(self) == old(self).recorded(event),
            r@ == final(self).next_step(),
    {
        match event {
            ThreadSubmissionEvent::Suspension(r) => self.suspended = Some(r),
            ThreadSubmissionEvent::BoardOpen(r) => self.board_open = Some(r),
            ThreadSubmissionEvent::Submitted(r) => self.submitted = Some(r),
        }
        self.decide()
    }
}

/// A suspended user's thread is refused with `403 Forbidden`, whatever
/// else has come back.
pub proof fn lemma_suspended_user_cannot_post_thread(s: ThreadSubmission)
    requires
        s.suspended == Some(Ok::<bool, ()>(true)),
    ensures
        s.next_step() == StepView::<ThreadSubmissionAction>::Respond(failure(FORBIDDEN, USER_SUSPENDED_REPLY@)),
{
}

/// A thread is stored only once the author is known not to be suspended
/// and, for the guarded board posted to from its page, once the board is
/// known to be open.
pub proof fn lemma_thread_submitted_only_when_allowed(s: ThreadSubmission)
    requires
        s.next_step() == StepView::Do(ThreadSubmissionAction::SubmitThread),
    ensures
        s.suspended == Some(Ok::<bool, ()>(false)),
        s.guarded() ==> s.board_open == Some(Ok::<bool, ()>(true)),
{
}


/// What a board's page needs from outside.
#[derive(Debug, PartialEq, Eq, Structural, Clone, Copy)]
pub enum BoardPageAction {
    /// The board with the requested URL.
    FetchBoard,
    /// A page of the board's threads: those last active before
    /// `before_mtime` (if given), `limit` of them.
    FetchThreads { before_mtime: Option<i64>, limit: i32 },
    /// Render the page.
    Render,
}

/// What comes back from outside; `Err(())` where the call failed.
pub enum BoardPageEvent {
    Board(Result<(), ()>),
    Threads(Result<(), ()>),
    Rendered(Result<(), ()>),
}

/// A request for a board's page, with its pagination, and what has come
/// back so far.
pub struct BoardPage {
    pub before_mtime: Option<i64>,
    pub limit: Option<i32>,
    pub board: Option<Result<(), ()>>,
    pub threads: Option<Result<(), ()>>,
    pub rendered: Option<Result<(), ()>>,
}

impl BoardPage {
    /// A request with its pagination, nothing known yet.
    pub fn new(before_mtime: Option<i64>, limit: Option<i32>) -> (r: Self)
        ensures
            r.before_mtime == before_mtime,
            r.limit == limit,
            r.board is None,
            r.threads is None,
            r.rendered is None,
    {
        BoardPage { before_mtime, limit, board: None, threads: None, rendered: None }
    }

    /// The request once `event` has come back.
    pub open spec fn recorded(self, event: BoardPageEvent) -> Self {
        match event {
            BoardPageEvent::Board(r) => BoardPage { board: Some(r), ..self },
            BoardPageEvent::Threads(r) => BoardPage { threads: Some(r), ..self },
            BoardPageEvent::Rendered(r) => BoardPage { rendered: Some(r), ..self },
        }
    }

    /// The next step, from what has come back: an unknown board is not
    /// found; threads that could not be fetched leave the page empty.
    pub open spec fn next_step(self) -> StepView<BoardPageAction> {
        match self.board {
            None => StepView::Do(BoardPageAction::FetchBoard),
            Some(Err(_)) => StepView::Respond(bare_failure(NOT_FOUND)),
            Some(Ok(_)) => match self.threads {
                None => StepView::Do(
                    BoardPageAction::FetchThreads {
                        before_mtime: self.before_mtime,
                        limit: match self.limit {
                            Some(l) => l,
                            None => DEFAULT_PAGE_SIZE,
                        },
                    },
                ),
                Some(_) => match self.rendered {
                    None => StepView::Do(BoardPageAction::Render),
                    Some(Ok(_)) => StepView::Respond(ResponseView::Page),
                    Some(Err(_)) => StepView::Respond(bare_failure(INTERNAL_SERVER_ERROR)),
                },
            },
        }
    }

    /// The next step, from what has come back.
    pub fn decide(&self) -> (r: Step<BoardPageAction>)
        ensures
            r@ == self.next_step(),
    {
        match &self.board {
            None => Step::Do(BoardPageAction::FetchBoard),
            Some(Err(_)) => fail_bare(NOT_FOUND),
            Some(Ok(_)) => match &self.threads {
                None => Step::Do(
                    BoardPageAction::FetchThreads {
                        before_mtime: self.before_mtime,
                        limit: page_limit(self.limit),
                    },
                ),
                Some(_) => match &self.rendered {
                    None => Step::Do(BoardPageAction::Render),
                    Some(Ok(_)) => page(),
                    Some(Err(_)) => fail_bare(INTERNAL_SERVER_ERROR),
                },
            },
        }
    }

    /// Takes in what came back from outside and gives the next step.
    pub fn advance(&mut self, event: BoardPageEvent) -> (r: Step<BoardPageAction>)
        ensures
            *final(self) == old(self).recorded(event),
            r@ == final(self).next_step(),
    {
        match event {
            BoardPageEvent::Board(r) => self.board = Some(r),
            BoardPageEvent::Threads(r) => self.threads = Some(r),
            BoardPageEvent::Rendered(r) => self.rendered = Some(r),
        }
        self.decide()
    }
}

/// The page shown when a board's threads cannot be fetched: no threads,
/// no next page, a page size and a last modification time of zero.
pub fn empty_board_page() -> (r: (Vec<ThreadSerializable>, bool, i32, i64))
    ensures
        r.0@.len() == 0,
        r.1 == false,
        r.2 == 0,
        r.3 == 0,
{
    (Vec::new(), false, 0, 0)
}

/// Once the board is found, its threads are fetched with the pagination
/// of the request: before the requested time, and as many as the request
/// names, or twenty where it names none.
pub proof fn lemma_board_page_fetches_requested_page(p: BoardPage)
    requires
        p.board matches Some(Ok(_)),
        p.threads is None,
    ensures
        p.limit matches Some(l) ==> p.next_step() == StepView::Do(
            BoardPageAction::FetchThreads { before_mtime: p.before_mtime, limit: l },
        ),
        p.limit is None ==> p.next_step() == StepView::Do(
            BoardPageAction::FetchThreads { before_mtime: p.before_mtime, limit: 20 },
        ),
{
}

/// Whatever a board's page fetches is fetched with the request's own
/// time bound, and with its own page size where it names one.
pub proof fn lemma_board_page_keeps_pagination(p: BoardPage)
    ensures
        p.next_step() matches StepView::Do(BoardPageAction::FetchThreads { before_mtime, limit }) ==> {
            &&& before_mtime == p.before_mtime
            &&& (p.limit matches Some(l) ==> limit == l)
            &&& (p.limit is None ==> limit == 20)
        },
{
}

} // verus!
