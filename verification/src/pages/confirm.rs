//! The publication of a pending post: a thread or a reply is published,
//! and only then is the pending post deleted.

use vstd::prelude::*;

verus! {

/// What publishing a pending post needs from outside.
#[derive(Debug, PartialEq, Eq, Structural, Clone, Copy)]
pub enum ConfirmPostAction {
    /// The pending post: whether it exists and whether it is a thread.
    FetchPending,
    /// Publish it as a thread; the new thread's id comes back.
    PublishThread,
    /// Publish it as a reply; the new reply's id comes back.
    PublishReply,
    /// Delete the pending post.
    DeletePending,
}

/// The next step of a publication: an action, or the outcome (the
/// published post's id, nothing where no pending post exists, or
/// `Err(())` where a call failed).
#[derive(Debug, PartialEq, Eq)]
pub enum ConfirmPostStep {
    Do(ConfirmPostAction),
    Finish(Result<Option<i32>, ()>),
}

/// What comes back from outside; `Err(())` where the call failed.
pub enum ConfirmPostEvent {
    /// `Some(is_thread)` for a pending post, `None` where there is none.
    Pending(Result<Option<bool>, ()>),
    Published(Result<i32, ()>),
    Deleted(Result<(), ()>),
}

/// A publication and what has come back so far.
pub struct ConfirmPost {
    pub pending: Option<Result<Option<bool>, ()>>,
    pub published: Option<Result<i32, ()>>,
    pub deleted: Option<Result<(), ()>>,
}

impl ConfirmPost {
    /// A publication, nothing known yet.
    pub fn new() -> (r: Self)
        ensures
            r.pending is None,
            r.published is None,
            r.deleted is None,
    {
        ConfirmPost { pending: None, published: None, deleted: None }
    }

    /// The publication once `event` has come back.
    pub open spec fn recorded(self, event: ConfirmPostEvent) -> Self {
        match event {
            ConfirmPostEvent::Pending(r) => ConfirmPost { pending: Some(r), ..self },
            ConfirmPostEvent::Published(r) => ConfirmPost { published: Some(r), ..self },
            ConfirmPostEvent::Deleted(r) => ConfirmPost { deleted: Some(r), ..self },
        }
    }

    /// The next step, from what has come back.
    pub open spec fn next_step(self) -> ConfirmPostStep {
        match self.pending {
            None => ConfirmPostStep::Do(ConfirmPostAction::FetchPending),
            Some(Err(_)) => ConfirmPostStep::Finish(Err(())),
            Some(Ok(None)) => ConfirmPostStep::Finish(Ok(None)),
            Some(Ok(Some(is_thread))) => match self.published {
                None => ConfirmPostStep::Do(
                    if is_thread {
                        ConfirmPostAction::PublishThread
                    } else {
                        ConfirmPostAction::PublishReply
                    },
                ),
                Some(Err(_)) => ConfirmPostStep::Finish(Err(())),
                Some(Ok(id)) => match self.deleted {
                    None => ConfirmPostStep::Do(ConfirmPostAction::DeletePending),
                    Some(Err(_)) => ConfirmPostStep::Finish(Err(())),
                    Some(Ok(_)) => ConfirmPostStep::Finish(Ok(Some(id))),
                },
            },
        }
    }

    /// The next step, from what has come back.
    pub fn decide(&self) -> (r: ConfirmPostStep)
        ensures
            r == self.next_step(),
    {
        match self.pending {
            None => ConfirmPostStep::Do(ConfirmPostAction::FetchPending),
            Some(Err(_)) => ConfirmPostStep::Finish(Err(())),
            Some(Ok(None)) => ConfirmPostStep::Finish(Ok(None)),
            Some(Ok(Some(is_thread))) => match self.published {
                None => ConfirmPostStep::Do(
                    if is_thread {
                        ConfirmPostAction::PublishThread
                    } else {
                        ConfirmPostAction::PublishReply
                    },
                ),
                Some(Err(_)) => ConfirmPostStep::Finish(Err(())),
                Some(Ok(id)) => match self.deleted {
                    None => ConfirmPostStep::Do(ConfirmPostAction::DeletePending),
                    Some(Err(_)) => ConfirmPostStep::Finish(Err(())),
                    Some(Ok(_)) => ConfirmPostStep::Finish(Ok(Some(id))),
                },
            },
        }
    }

    /// Takes in what came back from outside and gives the next step.
    pub fn advance(&mut self, event: ConfirmPostEvent) -> (r: ConfirmPostStep)
        ensures
            *final(self) == old(self).recorded(event),
            r == final(self).next_step(),
    {
        match event {
            ConfirmPostEvent::Pending(r) => self.pending = Some(r),
            ConfirmPostEvent::Published(r) => self.published = Some(r),
            ConfirmPostEvent::Deleted(r) => self.deleted = Some(r),
        }
        self.decide()
    }
}

/// A pending post is deleted only once it has been published, as the
/// kind of post it is; an id is handed back only once the pending post
/// is deleted.
pub proof fn lemma_pending_deleted_only_after_publication(c: ConfirmPost)
    ensures
        c.next_step() == ConfirmPostStep::Do(ConfirmPostAction::DeletePending) ==> (
        c.pending matches Some(Ok(Some(_))) && c.published matches Some(Ok(_))),
        c.next_step() == ConfirmPostStep::Do(ConfirmPostAction::PublishThread)
            ==> c.pending == Some(Ok::<Option<bool>, ()>(Some(true))),
        c.next_step() == ConfirmPostStep::Do(ConfirmPostAction::PublishReply)
            ==> c.pending == Some(Ok::<Option<bool>, ()>(Some(false))),
        c.next_step() matches ConfirmPostStep::Finish(Ok(Some(id))) ==> (c.published == Some(
            Ok::<i32, ()>(id),
        ) && c.deleted matches Some(Ok(_))),
{
}

} // verus!
