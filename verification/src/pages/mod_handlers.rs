//! The decisions of the moderation page `/mod/{id}` and of a moderator's
//! action there: nothing is done before the moderator's passphrase is
//! checked, and a post is redacted or its author suspended only when the
//! form asks for it.

use vstd::prelude::*;

use crate::moderation::same_text;
use crate::pages::k_handlers::{THREAD_PATH, parse_post_id, path_post_id};
use crate::pages::response::{
    BAD_REQUEST,
    INTERNAL_SERVER_ERROR,
    NOT_FOUND,
    ResponseView,
    Step,
    StepView,
    UNAUTHORIZED,
    bare_failure,
    fail,
    fail_bare,
    failure,
    joined,
    page,
    redirect,
    redirect_to,
};

verus! {

/// What the moderation page needs from outside.
#[derive(Debug, PartialEq, Eq, Structural, Clone, Copy)]
pub enum ModPageAction {
    /// The thread with this id.
    FetchThread { id: i32 },
    /// The reply with this id.
    FetchReply { id: i32 },
    /// Render the page from the post found.
    Render,
}

/// What comes back from outside; `Err(())` where the call failed.
pub enum ModPageEvent {
    Thread(Result<(), ()>),
    Reply(Result<(), ()>),
    Rendered(Result<(), ()>),
}

/// A request for `/mod/{id_hex}` and what has come back so far.
pub struct ModPage {
    pub id_hex: String,
    pub thread: Option<Result<(), ()>>,
    pub reply: Option<Result<(), ()>>,
    pub rendered: Option<Result<(), ()>>,
}

impl ModPage {
    /// A request for `/mod/{id_hex}`, nothing known yet.
    pub fn new(id_hex: String) -> (r: Self)
        ensures
            r.id_hex == id_hex,
            r.thread is None,
            r.reply is None,
            r.rendered is None,
    {
        ModPage { id_hex, thread: None, reply: None, rendered: None }
    }

    /// The request once `event` has come back.
    pub open spec fn recorded(self, event: ModPageEvent) -> Self {
        match event {
            ModPageEvent::Thread(r) => ModPage { thread: Some(r), ..self },
            ModPageEvent::Reply(r) => ModPage { reply: Some(r), ..self },
            ModPageEvent::Rendered(r) => ModPage { rendered: Some(r), ..self },
        }
    }

    /// The step once the post is found.
    pub open spec fn render_step(self) -> StepView<ModPageAction> {
        match self.rendered {
            None => StepView::Do(ModPageAction::Render),
            Some(Ok(_)) => StepView::Respond(ResponseView::Page),
            Some(Err(_)) => StepView::Respond(bare_failure(INTERNAL_SERVER_ERROR)),
        }
    }

    /// The next step, from what has come back: the id names a thread, or
    /// else a reply.
    pub open spec fn next_step(self) -> StepView<ModPageAction> {
        match path_post_id(self.id_hex@) {
            None => StepView::Respond(bare_failure(BAD_REQUEST)),
            Some(id) => match self.thread {
                None => StepView::Do(ModPageAction::FetchThread { id }),
                Some(Ok(_)) => self.render_step(),
                Some(Err(_)) => match self.reply {
                    None => StepView::Do(ModPageAction::FetchReply { id }),
                    Some(Ok(_)) => self.render_step(),
                    Some(Err(_)) => StepView::Respond(bare_failure(NOT_FOUND)),
                },
            },
        }
    }

    fn decide_render(&self) -> (r: Step<ModPageAction>)
        ensures
            r@ == self.render_step(),
    {
        match &self.rendered {
            None => Step::Do(ModPageAction::Render),
            Some(Ok(_)) => page(),
            Some(Err(_)) => fail_bare(INTERNAL_SERVER_ERROR),
        }
    }

    /// The next step, from what has come back.
    pub fn decide(&self) -> (r: Step<ModPageAction>)
        ensures
            r@ == self.next_step(),
    {
        let id = match parse_post_id(self.id_hex.as_str()) {
            None => return fail_bare(BAD_REQUEST),
            Some(id) => id,
        };
        match &self.thread {
            None => Step::Do(ModPageAction::FetchThread { id }),
            Some(Ok(_)) => self.decide_render(),
            Some(Err(_)) => match &self.reply {
                None => Step::Do(ModPageAction::FetchReply { id }),
                Some(Ok(_)) => self.decide_render(),
                Some(Err(_)) => fail_bare(NOT_FOUND),
            },
        }
    }

    /// Takes in what came back from outside and gives the next step.
    pub fn advance(&mut self, event: ModPageEvent) -> (r: Step<ModPageAction>)
        ensures
            *final(self) == old(self).recorded(event),
            r@ == final(self).next_step(),
    {
        match event {
            ModPageEvent::Thread(r) => self.thread = Some(r),
            ModPageEvent::Reply(r) => self.reply = Some(r),
            ModPageEvent::Rendered(r) => self.rendered = Some(r),
        }
        self.decide()
    }
}

/// The reply to a moderator whose credentials do not check.
pub const BAD_CREDENTIALS_REPLY: &'static str = "Unauthorized! Recheck your username and passphrase.";
/// The reply when the moderator's credentials could not be checked.
pub const CREDENTIALS_ERROR_REPLY: &'static str = "The server had an internal error processing yourcredentials.";
/// The reply to an id that does not parse.
pub const BAD_ID_REPLY: &'static str = "The server couldn't process the ID";
/// The reply when redaction fails.
pub const REDACT_FAILED_REPLY: &'static str = "Internal Server Error: Failed to redact";
/// The reply when suspension fails.
pub const SUSPEND_FAILED_REPLY: &'static str = "Internal Server Error: Failed to suspend";

/// The form's value that asks for redaction.
pub const REDACT_CHOICE: &'static str = "redact";
/// The form's value that asks for suspension.
pub const SUSPEND_CHOICE: &'static str = "suspend";

/// What a moderator's action needs from outside.
#[derive(Debug, PartialEq, Eq, Structural, Clone, Copy)]
pub enum ModerationAction {
    /// Check the moderator's username and passphrase.
    VerifyModerator,
    /// Redact the post with this id.
    Redact { id: i32 },
    /// Suspend the author of the post with this id for a week.
    Suspend { id: i32 },
}

/// What comes back from outside; `Err(())` where the call failed.
pub enum ModerationEvent {
    Verified(Result<bool, ()>),
    Redacted(Result<(), ()>),
    Suspended(Result<(), ()>),
}

/// A moderator's action on `/mod/{id_hex}`: whether the form asks to
/// redact and to suspend, and what has come back so far.
pub struct ModeratorRequest {
    pub id_hex: String,
    pub wants_redact: bool,
    pub wants_suspend: bool,
    pub verified: Option<Result<bool, ()>>,
    pub redacted: Option<Result<(), ()>>,
    pub suspended: Option<Result<(), ()>>,
}

/// Whether a form field holds the value `choice`.
pub open spec fn chosen(field: Option<Seq<char>>, choice: Seq<char>) -> bool {
    field == Some(choice)
}

fn is_chosen(field: &Option<String>, choice: &str) -> (r: bool)
    ensures
        r == chosen(
            match field {
                Some(f) => Some(f@),
                None => None,
            },
            choice@,
        ),
{
    match field {
        Some(f) => same_text(f.as_str(), choice),
        None => false,
    }
}

impl ModeratorRequest {
    /// The action on `/mod/{id_hex}` with the form's `redact` and
    /// `suspend` fields, nothing known yet.
    pub fn new(id_hex: String, redact: &Option<String>, suspend: &Option<String>) -> (r: Self)
        ensures
            r.id_hex == id_hex,
            r.wants_redact == chosen(
                match redact {
                    Some(f) => Some(f@),
                    None => None,
                },
                REDACT_CHOICE@,
            ),
            r.wants_suspend == chosen(
                match suspend {
                    Some(f) => Some(f@),
                    None => None,
                },
                SUSPEND_CHOICE@,
            ),
            r.verified is None,
            r.redacted is None,
            r.suspended is None,
    {
        ModeratorRequest {
            id_hex,
            wants_redact: is_chosen(redact, REDACT_CHOICE),
            wants_suspend: is_chosen(suspend, SUSPEND_CHOICE),
            verified: None,
            redacted: None,
            suspended: None,
        }
    }

    /// The request once `event` has come back.
    pub open spec fn recorded(self, event: ModerationEvent) -> Self {
        match event {
            ModerationEvent::Verified(r) => ModeratorRequest { verified: Some(r), ..self },
            ModerationEvent::Redacted(r) => ModeratorRequest { redacted: Some(r), ..self },
            ModerationEvent::Suspended(r) => ModeratorRequest { suspended: Some(r), ..self },
        }
    }

    /// The step once any redaction asked for is done.
    pub open spec fn suspend_step(self, id: i32) -> StepView<ModerationAction> {
        if self.wants_suspend {
            match self.suspended {
                None => StepView::Do(ModerationAction::Suspend { id }),
                Some(Err(_)) => StepView::Respond(failure(INTERNAL_SERVER_ERROR, SUSPEND_FAILED_REPLY@)),
                Some(Ok(_)) => StepView::Respond(redirect_to(THREAD_PATH@ + self.id_hex@, false)),
            }
        } else {
            StepView::Respond(redirect_to(THREAD_PATH@ + self.id_hex@, false))
        }
    }

    /// The next step, from what has come back.
    pub open spec fn next_step(self) -> StepView<ModerationAction> {
        match self.verified {
            None => StepView::Do(ModerationAction::VerifyModerator),
            Some(Ok(false)) => StepView::Respond(failure(UNAUTHORIZED, BAD_CREDENTIALS_REPLY@)),
            Some(Err(_)) => StepView::Respond(failure(INTERNAL_SERVER_ERROR, CREDENTIALS_ERROR_REPLY@)),
            Some(Ok(true)) => match path_post_id(self.id_hex@) {
                None => StepView::Respond(failure(BAD_REQUEST, BAD_ID_REPLY@)),
                Some(id) => if self.wants_redact {
                    match self.redacted {
                        None => StepView::Do(ModerationAction::Redact { id }),
                        Some(Err(_)) => StepView::Respond(failure(INTERNAL_SERVER_ERROR, REDACT_FAILED_REPLY@)),
                        Some(Ok(_)) => self.suspend_step(id),
                    }
                } else {
                    self.suspend_step(id)
                },
            },
        }
    }

    fn decide_suspend(&self, id: i32) -> (r: Step<ModerationAction>)
        ensures
            r@ == self.suspend_step(id),
    {
        if self.wants_suspend {
            match &self.suspended {
                None => Step::Do(ModerationAction::Suspend { id }),
                Some(Err(_)) => fail(INTERNAL_SERVER_ERROR, SUSPEND_FAILED_REPLY),
                Some(Ok(_)) => redirect(joined(THREAD_PATH, self.id_hex.as_str()), false),
            }
        } else {
            redirect(joined(THREAD_PATH, self.id_hex.as_str()), false)
        }
    }

    /// The next step, from what has come back.
    pub fn decide(&self) -> (r: Step<ModerationAction>)
        ensures
            r@ == self.next_step(),
    {
        match &self.verified {
            None => Step::Do(ModerationAction::VerifyModerator),
            Some(Ok(false)) => fail(UNAUTHORIZED, BAD_CREDENTIALS_REPLY),
            Some(Err(_)) => fail(INTERNAL_SERVER_ERROR, CREDENTIALS_ERROR_REPLY),
            Some(Ok(true)) => match parse_post_id(self.id_hex.as_str()) {
                None => fail(BAD_REQUEST, BAD_ID_REPLY),
                Some(id) => {
                    if self.wants_redact {
                        match &self.redacted {
                            None => Step::Do(ModerationAction::Redact { id }),
                            Some(Err(_)) => fail(INTERNAL_SERVER_ERROR, REDACT_FAILED_REPLY),
                            Some(Ok(_)) => self.decide_suspend(id),
                        }
                    } else {
                        self.decide_suspend(id)
                    }
                },
            },
        }
    }

    /// Takes in what came back from outside and gives the next step.
    pub fn advance(&mut self, event: ModerationEvent) -> (r: Step<ModerationAction>)
        ensures
            *final(self) == old(self).recorded(event),
            r@ == final(self).next_step(),
    {
        match event {
            ModerationEvent::Verified(r) => self.verified = Some(r),
            ModerationEvent::Redacted(r) => self.redacted = Some(r),
            ModerationEvent::Suspended(r) => self.suspended = Some(r),
        }
        self.decide()
    }
}

/// No post is redacted and no user suspended unless the moderator's
/// credentials have checked, the form asked for it and the post id is
/// well formed; a suspension comes only after any redaction asked for has
/// succeeded.
pub proof fn lemma_moderation_needs_verified_moderator(r: ModeratorRequest)
    ensures
        r.next_step() matches StepView::Do(ModerationAction::Redact { id }) ==> {
            &&& r.verified == Some(Ok::<bool, ()>(true))
            &&& r.wants_redact
            &&& path_post_id(r.id_hex@) == Some(id)
        },
        r.next_step() matches StepView::Do(ModerationAction::Suspend { id }) ==> {
            &&& r.verified == Some(Ok::<bool, ()>(true))
            &&& r.wants_suspend
            &&& path_post_id(r.id_hex@) == Some(id)
            &&& r.wants_redact ==> r.redacted matches Some(Ok(_))
        },
{
}

/// Each action the form asks for is carried out, once the moderator is
/// verified and the post id parses: a redaction first, then a suspension
/// of the post's author (whether or not a redaction was asked for).
pub proof fn lemma_requested_actions_are_done(r: ModeratorRequest, id: i32)
    requires
        r.verified == Some(Ok::<bool, ()>(true)),
        path_post_id(r.id_hex@) == Some(id),
    ensures
        r.wants_redact && r.redacted is None ==> r.next_step() == StepView::Do(ModerationAction::Redact { id }),
        r.wants_suspend && (r.wants_redact ==> (r.redacted matches Some(Ok(_)))) && r.suspended is None
            ==> r.next_step() == StepView::Do(ModerationAction::Suspend { id }),
{
}

/// A moderator's request ends in the redirect back to the thread only
/// when it was verified, its id parses, and every action the form asked
/// for has come back done.
pub proof fn lemma_redirect_only_when_done(r: ModeratorRequest)
    ensures
        r.next_step() matches StepView::Respond(ResponseView::Redirect { location, permanent }) ==> {
            &&& location == THREAD_PATH@ + r.id_hex@
            &&& !permanent
            &&& r.verified == Some(Ok::<bool, ()>(true))
            &&& path_post_id(r.id_hex@) is Some
            &&& (r.wants_redact ==> (r.redacted matches Some(Ok(_))))
            &&& (r.wants_suspend ==> (r.suspended matches Some(Ok(_))))
        },
{
}

} // verus!
