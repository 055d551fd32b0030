//! The suspension of the author of a post: the author is looked up among
//! threads, then among replies, and suspended in the moderator's name.

use vstd::prelude::*;

use crate::moderation::suspension_seconds;

verus! {

/// What a suspension needs from outside.
#[derive(Debug, PartialEq, Eq, Structural, Clone, Copy)]
pub enum SuspensionAction {
    /// The author of the thread with the post's id.
    FindThreadAuthor { post_id: i32 },
    /// The author of the reply with the post's id.
    FindReplyAuthor { post_id: i32 },
    /// The id of the moderator.
    FindModerator,
    /// Record that `uid` is suspended by `moderator_id` for `seconds`
    /// from now, for the post `post_id`.
    RecordSuspension { uid: i32, moderator_id: i32, post_id: i32, seconds: u64 },
}

/// The next step of a suspension: an action, or the outcome.
#[derive(Debug, PartialEq, Eq)]
pub enum SuspensionStep {
    Do(SuspensionAction),
    Finish(Result<(), ()>),
}

/// What comes back from outside; `Err(())` where the call failed.
pub enum SuspensionEvent {
    ThreadAuthor(Result<i32, ()>),
    ReplyAuthor(Result<i32, ()>),
    Moderator(Result<i32, ()>),
    Recorded(Result<(), ()>),
}

/// The suspension of the author of `post_id` for `for_days` days, and
/// what has come back so far.
pub struct Suspension {
    pub post_id: i32,
    pub for_days: u64,
    pub thread_author: Option<Result<i32, ()>>,
    pub reply_author: Option<Result<i32, ()>>,
    pub moderator: Option<Result<i32, ()>>,
    pub recorded: Option<Result<(), ()>>,
}

impl Suspension {
    /// A suspension, nothing known yet.
    pub fn new(post_id: i32, for_days: u64) -> (r: Self)
        requires
            for_days * 86400 <= u64::MAX,
        ensures
            r.post_id == post_id,
            r.for_days == for_days,
            r.thread_author is None,
            r.reply_author is None,
            r.moderator is None,
            r.recorded is None,
    {
        Suspension {
            post_id,
            for_days,
            thread_author: None,
            reply_author: None,
            moderator: None,
            recorded: None,
        }
    }

    /// The suspension once `event` has come back.
    pub open spec fn with_event(self, event: SuspensionEvent) -> Self {
        match event {
            SuspensionEvent::ThreadAuthor(r) => Suspension { thread_author: Some(r), ..self },
            SuspensionEvent::ReplyAuthor(r) => Suspension { reply_author: Some(r), ..self },
            SuspensionEvent::Moderator(r) => Suspension { moderator: Some(r), ..self },
            SuspensionEvent::Recorded(r) => Suspension { recorded: Some(r), ..self },
        }
    }

    /// The step once the author `uid` is known.
    pub open spec fn author_known_step(self, uid: i32) -> SuspensionStep {
        match self.moderator {
            None => SuspensionStep::Do(SuspensionAction::FindModerator),
            Some(Err(_)) => SuspensionStep::Finish(Err(())),
            Some(Ok(mid)) => match self.recorded {
                None => SuspensionStep::Do(
                    SuspensionAction::RecordSuspension {
                        uid,
                        moderator_id: mid,
                        post_id: self.post_id,
                        seconds: (self.for_days * 86400) as u64,
                    },
                ),
                Some(r) => SuspensionStep::Finish(r),
            },
        }
    }

    /// The next step, from what has come back.
    pub open spec fn next_step(self) -> SuspensionStep {
        match self.thread_author {
            None => SuspensionStep::Do(SuspensionAction::FindThreadAuthor { post_id: self.post_id }),
            Some(Ok(uid)) => self.author_known_step(uid),
            Some(Err(_)) => match self.reply_author {
                None => SuspensionStep::Do(SuspensionAction::FindReplyAuthor { post_id: self.post_id }),
                Some(Ok(uid)) => self.author_known_step(uid),
                Some(Err(_)) => SuspensionStep::Finish(Err(())),
            },
        }
    }

    fn decide_known(&self, uid: i32) -> (r: SuspensionStep)
        requires
            self.for_days * 86400 <= u64::MAX,
        ensures
            r == self.author_known_step(uid),
    {
        match self.moderator {
            None => SuspensionStep::Do(SuspensionAction::FindModerator),
            Some(Err(_)) => SuspensionStep::Finish(Err(())),
            Some(Ok(mid)) => match self.recorded {
                None => SuspensionStep::Do(
                    SuspensionAction::RecordSuspension {
                        uid,
                        moderator_id: mid,
                        post_id: self.post_id,
                        seconds: suspension_seconds(self.for_days),
                    },
                ),
                Some(r) => SuspensionStep::Finish(r),
            },
        }
    }

    /// The next step, from what has come back.
    pub fn decide(&self) -> (r: SuspensionStep)
        requires
            self.for_days * 86400 <= u64::MAX,
        ensures
            r == self.next_step(),
    {
        match self.thread_author {
            None => SuspensionStep::Do(SuspensionAction::FindThreadAuthor { post_id: self.post_id }),
            Some(Ok(uid)) => self.decide_known(uid),
            Some(Err(_)) => match self.reply_author {
                None => SuspensionStep::Do(SuspensionAction::FindReplyAuthor { post_id: self.post_id }),
                Some(Ok(uid)) => self.decide_known(uid),
                Some(Err(_)) => SuspensionStep::Finish(Err(())),
            },
        }
    }

    /// Takes in what came back from outside and gives the next step.
    pub fn advance(&mut self, event: SuspensionEvent) -> (r: SuspensionStep)
        requires
            old(self).for_days * 86400 <= u64::MAX,
        ensures
            *final(self) == old(self).with_event(event),
            r == final(self).next_step(),
    {
        match event {
            SuspensionEvent::ThreadAuthor(r) => self.thread_author = Some(r),
            SuspensionEvent::ReplyAuthor(r) => self.reply_author = Some(r),
            SuspensionEvent::Moderator(r) => self.moderator = Some(r),
            SuspensionEvent::Recorded(r) => self.recorded = Some(r),
        }
        self.decide()
    }
}

/// The user suspended is the author of the post: of the thread with the
/// post's id where there is one, else of the reply; and the suspension
/// lasts `for_days` days.
pub proof fn lemma_suspension_targets_author(s: Suspension)
    requires
        s.for_days * 86400 <= u64::MAX,
    ensures
        s.next_step() matches SuspensionStep::Do(
            SuspensionAction::RecordSuspension { uid, moderator_id, post_id, seconds },
        ) ==> {
            &&& post_id == s.post_id
            &&& seconds == s.for_days * 86400
            &&& s.moderator == Some(Ok::<i32, ()>(moderator_id))
            &&& (s.thread_author == Some(Ok::<i32, ()>(uid)) || (s.thread_author matches Some(Err(_))
                && s.reply_author == Some(Ok::<i32, ()>(uid))))
        },
{
}

/// A suspension reports success only once the suspension of the post's
/// author, by a known moderator, has been recorded.
pub proof fn lemma_success_only_after_recording(s: Suspension)
    requires
        s.next_step() == SuspensionStep::Finish(Ok::<(), ()>(())),
    ensures
        s.recorded == Some(Ok::<(), ()>(())),
        s.moderator matches Some(Ok(_)),
        s.thread_author matches Some(Ok(_)) || s.reply_author matches Some(Ok(_)),
{
}

/// Once the author `uid` of the post is found (among threads, or else
/// among replies) and nothing is recorded yet, the suspension goes on: it
/// asks for the moderator, records the suspension of `uid` for
/// `for_days` days, or fails where the moderator is unknown.
pub proof fn lemma_found_author_is_suspended(s: Suspension, uid: i32)
    requires
        s.thread_author == Some(Ok::<i32, ()>(uid)) || (s.thread_author matches Some(Err(_))
            && s.reply_author == Some(Ok::<i32, ()>(uid))),
        s.recorded is None,
    ensures
        s.moderator is None ==> s.next_step() == SuspensionStep::Do(SuspensionAction::FindModerator),
        s.moderator matches Some(Err(_)) ==> s.next_step() == SuspensionStep::Finish(Err::<(), ()>(())),
        s.moderator matches Some(Ok(mid)) ==> s.next_step() == SuspensionStep::Do(
            SuspensionAction::RecordSuspension {
                uid,
                moderator_id: mid,
                post_id: s.post_id,
                seconds: (s.for_days * 86400) as u64,
            },
        ),
{
}

} // verus!
