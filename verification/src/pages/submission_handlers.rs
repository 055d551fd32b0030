//! The decisions of the page of a pending post `/submission/{id}` and of
//! its confirmation: a suspended user cannot confirm, a user who posted
//! too many threads in the last hour must wait, a confirmed post leads to
//! its thread, and a cancelled one back home.

use vstd::prelude::*;

use crate::moderation::same_text;
use crate::pages::helper::{post_id_hex, post_id_string};
use crate::pages::k_handlers::THREAD_PATH;
use crate::pages::response::{
    BAD_REQUEST,
    FORBIDDEN,
    INTERNAL_SERVER_ERROR,
    INTERNAL_SERVER_ERROR_REPLY,
    NOT_FOUND,
    ResponseView,
    Step,
    StepView,
    TOO_MANY_REQUESTS,
    USER_SUSPENDED_REPLY,
    fail,
    failure,
    joined,
    page,
    redirect,
    redirect_to,
};

verus! {

/// The reply to an unknown submission id.
pub const SUBMISSION_NOT_FOUND_REPLY: &'static str = "সাবমিশন আইডি পাওয়া যায়নি। অনুগ্রহ করে আপনার URL যাচাই করুন বা পুনরায় পোস্ট করুন।";
/// The reply when the submission page fails.
pub const SUBMISSION_ERROR_REPLY: &'static str = "There was an internal server error. Please contact the admin.";
/// The reply to an action other than `submit` and `cancel`.
pub const BAD_ACTION_REPLY: &'static str = "ERROR 400: Bad Request! Invalid 'Action' value.";
/// The reply to a user who posted too many threads in the last hour.
pub const TOO_MANY_THREADS_REPLY: &'static str = "আপনি গত এক ঘণ্টায় অতিমাত্রায় নিবন্ধ পোস্ট করেছেন। পুনরায় পোস্ট করার আগে অনুগ্রহ করে কিছুক্ষণ অপেক্ষা করুন।";

/// The number of threads in the last hour from which a user must wait.
pub const HOURLY_THREAD_LIMIT: i64 = 3;

/// The confirmation action.
pub const SUBMIT_ACTION: &'static str = "submit";
/// The cancellation action.
pub const CANCEL_ACTION: &'static str = "cancel";
/// Where a cancelled submission leads.
pub const HOME_PATH: &'static str = "/";

/// What the page of a pending post needs from outside.
#[derive(Debug, PartialEq, Eq, Structural, Clone, Copy)]
pub enum SubmissionPageAction {
    /// The pending post.
    FetchPending,
    /// Render the page from it.
    Render,
}

/// What comes back from outside: whether the pending post exists, or
/// `Err(())` where the call failed.
pub enum SubmissionPageEvent {
    Pending(Result<bool, ()>),
    Rendered(Result<(), ()>),
}

/// A request for `/submission/{id}` and what has come back so far.
pub struct SubmissionPage {
    pub pending: Option<Result<bool, ()>>,
    pub rendered: Option<Result<(), ()>>,
}

impl SubmissionPage {
    /// A request, nothing known yet.
    pub fn new() -> (r: Self)
        ensures
            r.pending is None,
            r.rendered is None,
    {
        SubmissionPage { pending: None, rendered: None }
    }

    /// The request once `event` has come back.
    pub open spec fn recorded(self, event: SubmissionPageEvent) -> Self {
        match event {
            SubmissionPageEvent::Pending(r) => SubmissionPage { pending: Some(r), ..self },
            SubmissionPageEvent::Rendered(r) => SubmissionPage { rendered: Some(r), ..self },
        }
    }

    /// The next step, from what has come back.
    pub open spec fn next_step(self) -> StepView<SubmissionPageAction> {
        match self.pending {
            None => StepView::Do(SubmissionPageAction::FetchPending),
            Some(Ok(false)) => StepView::Respond(failure(NOT_FOUND, SUBMISSION_NOT_FOUND_REPLY@)),
            Some(Err(_)) => StepView::Respond(failure(INTERNAL_SERVER_ERROR, SUBMISSION_ERROR_REPLY@)),
            Some(Ok(true)) => match self.rendered {
                None => StepView::Do(SubmissionPageAction::Render),
                Some(Ok(_)) => StepView::Respond(ResponseView::Page),
                Some(Err(_)) => StepView::Respond(failure(INTERNAL_SERVER_ERROR, SUBMISSION_ERROR_REPLY@)),
            },
        }
    }

    /// The next step, from what has come back.
    pub fn decide(&self) -> (r: Step<SubmissionPageAction>)
        ensures
            r@ == self.next_step(),
    {
        match &self.pending {
            None => Step::Do(SubmissionPageAction::FetchPending),
            Some(Ok(false)) => fail(NOT_FOUND, SUBMISSION_NOT_FOUND_REPLY),
            Some(Err(_)) => fail(INTERNAL_SERVER_ERROR, SUBMISSION_ERROR_REPLY),
            Some(Ok(true)) => match &self.rendered {
                None => Step::Do(SubmissionPageAction::Render),
                Some(Ok(_)) => page(),
                Some(Err(_)) => fail(INTERNAL_SERVER_ERROR, SUBMISSION_ERROR_REPLY),
            },
        }
    }

    /// Takes in what came back from outside and gives the next step.
    pub fn advance(&mut self, event: SubmissionPageEvent) -> (r: Step<SubmissionPageAction>)
        ensures
            *final(self) == old(self).recorded(event),
            r@ == final(self).next_step(),
    {
        match event {
            SubmissionPageEvent::Pending(r) => self.pending = Some(r),
            SubmissionPageEvent::Rendered(r) => self.rendered = Some(r),
        }
        self.decide()
    }
}

/// What the confirmation of a pending post needs from outside.
#[derive(Debug, PartialEq, Eq, Structural, Clone, Copy)]
pub enum ConfirmationAction {
    /// Whether the user is suspended.
    CheckSuspension,
    /// How many threads the user posted in the last hour.
    CountRecentThreads,
    /// Publish the pending post; the id of the thread or reply comes
    /// back, or nothing where no such pending post exists.
    ConfirmPost,
    /// Delete the pending post.
    DeletePending,
}

/// What comes back from outside; `Err(())` where the call failed.
pub enum ConfirmationEvent {
    Suspension(Result<bool, ()>),
    RecentThreads(Result<i64, ()>),
    Confirmed(Result<Option<i32>, ()>),
    Deleted(Result<(), ()>),
}

/// The form's action on `/submission/{id}`, and what has come back so
/// far.
pub struct Confirmation {
    pub action: String,
    pub suspended: Option<Result<bool, ()>>,
    pub recent_threads: Option<Result<i64, ()>>,
    pub confirmed: Option<Result<Option<i32>, ()>>,
    pub deleted: Option<Result<(), ()>>,
}

impl Confirmation {
    /// The confirmation with the form's `action`, nothing known yet.
    pub fn new(action: String) -> (r: Self)
        ensures
            r.action == action,
            r.suspended is None,
            r.recent_threads is None,
            r.confirmed is None,
            r.deleted is None,
    {
        Confirmation { action, suspended: None, recent_threads: None, confirmed: None, deleted: None }
    }

    /// The confirmation once `event` has come back.
    pub open spec fn recorded(self, event: ConfirmationEvent) -> Self {
        match event {
            ConfirmationEvent::Suspension(r) => Confirmation { suspended: Some(r), ..self },
            ConfirmationEvent::RecentThreads(r) => Confirmation { recent_threads: Some(r), ..self },
            ConfirmationEvent::Confirmed(r) => Confirmation { confirmed: Some(r), ..self },
            ConfirmationEvent::Deleted(r) => Confirmation { deleted: Some(r), ..self },
        }
    }

    /// The steps of `submit`.
    pub open spec fn submit_step(self) -> StepView<ConfirmationAction> {
        match self.recent_threads {
            None => StepView::Do(ConfirmationAction::CountRecentThreads),
            Some(Err(_)) => StepView::Respond(failure(INTERNAL_SERVER_ERROR, INTERNAL_SERVER_ERROR_REPLY@)),
            Some(Ok(n)) => if n >= HOURLY_THREAD_LIMIT {
                StepView::Respond(failure(TOO_MANY_REQUESTS, TOO_MANY_THREADS_REPLY@))
            } else {
                match self.confirmed {
                    None => StepView::Do(ConfirmationAction::ConfirmPost),
                    Some(Ok(Some(id))) => StepView::Respond(redirect_to(THREAD_PATH@ + post_id_hex(id), false)),
                    Some(Ok(None)) => StepView::Respond(failure(NOT_FOUND, SUBMISSION_NOT_FOUND_REPLY@)),
                    Some(Err(_)) => StepView::Respond(failure(INTERNAL_SERVER_ERROR, INTERNAL_SERVER_ERROR_REPLY@)),
                }
            },
        }
    }

    /// The steps of `cancel`.
    pub open spec fn cancel_step(self) -> StepView<ConfirmationAction> {
        match self.deleted {
            None => StepView::Do(ConfirmationAction::DeletePending),
            Some(Ok(_)) => StepView::Respond(redirect_to(HOME_PATH@, false)),
            Some(Err(_)) => StepView::Respond(failure(INTERNAL_SERVER_ERROR, INTERNAL_SERVER_ERROR_REPLY@)),
        }
    }

    /// The next step, from what has come back.
    pub open spec fn next_step(self) -> StepView<ConfirmationAction> {
        match self.suspended {
            None => StepView::Do(ConfirmationAction::CheckSuspension),
            Some(Ok(true)) => StepView::Respond(failure(FORBIDDEN, USER_SUSPENDED_REPLY@)),
            Some(Err(_)) => StepView::Respond(failure(INTERNAL_SERVER_ERROR, INTERNAL_SERVER_ERROR_REPLY@)),
            Some(Ok(false)) => if self.action@ == SUBMIT_ACTION@ {
                self.submit_step()
            } else if self.action@ == CANCEL_ACTION@ {
                self.cancel_step()
            } else {
                StepView::Respond(failure(BAD_REQUEST, BAD_ACTION_REPLY@))
            },
        }
    }

    fn decide_submit(&self) -> (r: Step<ConfirmationAction>)
        ensures
            r@ == self.submit_step(),
    {
        match &self.recent_threads {
            None => Step::Do(ConfirmationAction::CountRecentThreads),
            Some(Err(_)) => fail(INTERNAL_SERVER_ERROR, INTERNAL_SERVER_ERROR_REPLY),
            Some(Ok(n)) => {
                if *n >= HOURLY_THREAD_LIMIT {
                    fail(TOO_MANY_REQUESTS, TOO_MANY_THREADS_REPLY)
                } else {
                    match &self.confirmed {
                        None => Step::Do(ConfirmationAction::ConfirmPost),
                        Some(Ok(Some(id))) => {
                            let hex = post_id_string(*id);
                            redirect(joined(THREAD_PATH, hex.as_str()), false)
                        },
                        Some(Ok(None)) => fail(NOT_FOUND, SUBMISSION_NOT_FOUND_REPLY),
                        Some(Err(_)) => fail(INTERNAL_SERVER_ERROR, INTERNAL_SERVER_ERROR_REPLY),
                    }
                }
            },
        }
    }

    fn decide_cancel(&self) -> (r: Step<ConfirmationAction>)
        ensures
            r@ == self.cancel_step(),
    {
        match &self.deleted {
            None => Step::Do(ConfirmationAction::DeletePending),
            Some(Ok(_)) => redirect(HOME_PATH.to_owned(), false),
            Some(Err(_)) => fail(INTERNAL_SERVER_ERROR, INTERNAL_SERVER_ERROR_REPLY),
        }
    }

    /// The next step, from what has come back.
    pub fn decide(&self) -> (r: Step<ConfirmationAction>)
        ensures
            r@ == self.next_step(),
    {
        match &self.suspended {
            None => Step::Do(ConfirmationAction::CheckSuspension),
            Some(Ok(true)) => fail(FORBIDDEN, USER_SUSPENDED_REPLY),
            Some(Err(_)) => fail(INTERNAL_SERVER_ERROR, INTERNAL_SERVER_ERROR_REPLY),
            Some(Ok(false)) => {
                if same_text(self.action.as_str(), SUBMIT_ACTION) {
                    self.decide_submit()
                } else if same_text(self.action.as_str(), CANCEL_ACTION) {
                    self.decide_cancel()
                } else {
                    fail(BAD_REQUEST, BAD_ACTION_REPLY)
                }
            },
        }
    }

    /// Takes in what came back from outside and gives the next step.
    pub fn advance(&mut self, event: ConfirmationEvent) -> (r: Step<ConfirmationAction>)
        ensures
            *final(self) == old(self).recorded(event),
            r@ == final(self).next_step(),
    {
        match event {
            ConfirmationEvent::Suspension(r) => self.suspended = Some(r),
            ConfirmationEvent::RecentThreads(r) => self.recent_threads = Some(r),
            ConfirmationEvent::Confirmed(r) => self.confirmed = Some(r),
            ConfirmationEvent::Deleted(r) => self.deleted = Some(r),
        }
        self.decide()
    }
}

/// A post is published only for a user who is not suspended, whose
/// action is `submit`, and who posted fewer than three threads in the
/// last hour.
pub proof fn lemma_post_confirmed_only_when_allowed(c: Confirmation)
    requires
        c.next_step() == StepView::Do(ConfirmationAction::ConfirmPost),
    ensures
        c.suspended == Some(Ok::<bool, ()>(false)),
        c.action@ == SUBMIT_ACTION@,
        c.recent_threads matches Some(Ok(n)) && n < HOURLY_THREAD_LIMIT,
{
}

} // verus!
