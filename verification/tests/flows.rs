use adda::pages::board_handlers::{
    empty_board_page, BoardPage, BoardPageAction, BoardPageEvent, ThreadSubmission,
    ThreadSubmissionAction, ThreadSubmissionEvent, BOARD_CLOSED_REPLY,
};
use adda::pages::confirm::{ConfirmPost, ConfirmPostAction, ConfirmPostEvent, ConfirmPostStep};
use adda::pages::k_handlers::{
    parse_post_id, ReplySubmission, ReplySubmissionAction, ReplySubmissionEvent, ThreadPage,
    ThreadPageAction, ThreadPageEvent,
};
use adda::pages::mod_handlers::{
    ModPage, ModPageAction, ModPageEvent, ModerationAction, ModerationEvent, ModeratorRequest,
    BAD_CREDENTIALS_REPLY, BAD_ID_REPLY, REDACT_FAILED_REPLY,
};
use adda::pages::response::{Response, Step, INTERNAL_SERVER_ERROR_REPLY, USER_SUSPENDED_REPLY};
use adda::pages::submission_handlers::{
    Confirmation, ConfirmationAction, ConfirmationEvent, SubmissionPage, SubmissionPageAction,
    SubmissionPageEvent, BAD_ACTION_REPLY, SUBMISSION_NOT_FOUND_REPLY, TOO_MANY_THREADS_REPLY,
};

fn failure<A>(status: u16, message: &'static str) -> Step<A> {
    Step::Respond(Response::Failure { status, message: Some(message) })
}

fn bare<A>(status: u16) -> Step<A> {
    Step::Respond(Response::Failure { status, message: None })
}

fn redirect<A>(location: &str, permanent: bool) -> Step<A> {
    Step::Respond(Response::Redirect { location: location.to_string(), permanent })
}

#[test]
fn thread_submission_happy_path() {
    let mut s = ThreadSubmission::new(7, "b".to_string(), true, "s".to_string(), "c".to_string());
    assert_eq!(s.decide(), Step::Do(ThreadSubmissionAction::CheckSuspension));
    assert_eq!(
        s.advance(ThreadSubmissionEvent::Suspension(Ok(false))),
        Step::Do(ThreadSubmissionAction::SubmitThread)
    );
    assert_eq!(
        s.advance(ThreadSubmissionEvent::Submitted(Ok("abc".to_string()))),
        redirect("/submission/abc", false)
    );
}

#[test]
fn thread_submission_refuses_suspended_users() {
    let mut s = ThreadSubmission::new(7, "b".to_string(), true, "s".to_string(), "c".to_string());
    assert_eq!(s.advance(ThreadSubmissionEvent::Suspension(Ok(true))), failure(403, USER_SUSPENDED_REPLY));
    let mut s = ThreadSubmission::new(7, "b".to_string(), true, "s".to_string(), "c".to_string());
    assert_eq!(s.advance(ThreadSubmissionEvent::Suspension(Err(()))), failure(500, INTERNAL_SERVER_ERROR_REPLY));
}

#[test]
fn guarded_board_needs_g_open() {
    let mut s = ThreadSubmission::new(7, "g".to_string(), true, "s".to_string(), "c".to_string());
    assert_eq!(
        s.advance(ThreadSubmissionEvent::Suspension(Ok(false))),
        Step::Do(ThreadSubmissionAction::CheckBoardOpen)
    );
    assert_eq!(s.advance(ThreadSubmissionEvent::BoardOpen(Ok(false))), failure(401, BOARD_CLOSED_REPLY));
    let mut s = ThreadSubmission::new(7, "g".to_string(), true, "s".to_string(), "c".to_string());
    s.advance(ThreadSubmissionEvent::Suspension(Ok(false)));
    assert_eq!(
        s.advance(ThreadSubmissionEvent::BoardOpen(Ok(true))),
        Step::Do(ThreadSubmissionAction::SubmitThread)
    );
    let mut s = ThreadSubmission::new(7, "g".to_string(), false, "s".to_string(), "c".to_string());
    assert_eq!(
        s.advance(ThreadSubmissionEvent::Suspension(Ok(false))),
        Step::Do(ThreadSubmissionAction::SubmitThread)
    );
}

#[test]
fn post_ids_parse_from_paths() {
    assert_eq!(parse_post_id("01f"), Some(31));
    assert_eq!(parse_post_id("ffffffff"), Some(-1));
    assert_eq!(parse_post_id("zz"), None);
    assert_eq!(parse_post_id(""), None);
}

#[test]
fn thread_page_flow() {
    let mut p = ThreadPage::new("zz".to_string());
    assert_eq!(p.decide(), bare(400));
    let mut p = ThreadPage::new("01f".to_string());
    assert_eq!(p.decide(), Step::Do(ThreadPageAction::FetchThread { id: 31 }));
    assert_eq!(p.advance(ThreadPageEvent::Thread(Ok(()))), Step::Do(ThreadPageAction::FetchReplies { id: 31 }));
    assert_eq!(p.advance(ThreadPageEvent::Replies(Ok(()))), Step::Do(ThreadPageAction::Render));
    assert_eq!(p.advance(ThreadPageEvent::Rendered(Ok(()))), Step::Respond(Response::Page));
}

#[test]
fn thread_page_of_a_reply_redirects() {
    let mut p = ThreadPage::new("20".to_string());
    assert_eq!(
        p.advance(ThreadPageEvent::Thread(Err(()))),
        Step::Do(ThreadPageAction::FetchReplyThread { id: 32 })
    );
    assert_eq!(p.advance(ThreadPageEvent::ReplyThread(Ok(0x1f))), redirect("/k/01f#20", true));
    let mut p = ThreadPage::new("20".to_string());
    p.advance(ThreadPageEvent::Thread(Err(())));
    assert_eq!(p.advance(ThreadPageEvent::ReplyThread(Err(()))), bare(404));
}

#[test]
fn reply_submission_flow() {
    let mut r = ReplySubmission::new(7, "1f".to_string(), "c".to_string());
    assert_eq!(r.decide(), Step::Do(ReplySubmissionAction::CheckSuspension));
    assert_eq!(
        r.advance(ReplySubmissionEvent::Suspension(Ok(false))),
        Step::Do(ReplySubmissionAction::SubmitReply { tid: 31 })
    );
    assert_eq!(r.advance(ReplySubmissionEvent::Submitted(Ok("u-1".to_string()))), redirect("/submission/u-1", false));
    let mut r = ReplySubmission::new(7, "1f".to_string(), "c".to_string());
    assert_eq!(r.advance(ReplySubmissionEvent::Suspension(Ok(true))), bare(403));
    let r = ReplySubmission::new(7, "x".to_string(), "c".to_string());
    assert_eq!(r.decide(), bare(400));
}

#[test]
fn mod_page_flow() {
    let mut p = ModPage::new("1f".to_string());
    assert_eq!(p.decide(), Step::Do(ModPageAction::FetchThread { id: 31 }));
    assert_eq!(p.advance(ModPageEvent::Thread(Err(()))), Step::Do(ModPageAction::FetchReply { id: 31 }));
    assert_eq!(p.advance(ModPageEvent::Reply(Ok(()))), Step::Do(ModPageAction::Render));
    assert_eq!(p.advance(ModPageEvent::Rendered(Err(()))), bare(500));
    let mut p = ModPage::new("1f".to_string());
    p.advance(ModPageEvent::Thread(Err(())));
    assert_eq!(p.advance(ModPageEvent::Reply(Err(()))), bare(404));
}

#[test]
fn moderator_actions() {
    let mut m = ModeratorRequest::new("1f".to_string(), &Some("redact".to_string()), &Some("suspend".to_string()));
    assert_eq!(m.decide(), Step::Do(ModerationAction::VerifyModerator));
    assert_eq!(m.advance(ModerationEvent::Verified(Ok(true))), Step::Do(ModerationAction::Redact { id: 31 }));
    assert_eq!(m.advance(ModerationEvent::Redacted(Ok(()))), Step::Do(ModerationAction::Suspend { id: 31 }));
    assert_eq!(m.advance(ModerationEvent::Suspended(Ok(()))), redirect("/k/1f", false));
}

#[test]
fn moderator_refusals() {
    let mut m = ModeratorRequest::new("1f".to_string(), &Some("redact".to_string()), &None);
    assert_eq!(m.advance(ModerationEvent::Verified(Ok(false))), failure(401, BAD_CREDENTIALS_REPLY));
    let mut m = ModeratorRequest::new("zz".to_string(), &Some("redact".to_string()), &None);
    assert_eq!(m.advance(ModerationEvent::Verified(Ok(true))), failure(400, BAD_ID_REPLY));
    let mut m = ModeratorRequest::new("1f".to_string(), &Some("redact".to_string()), &Some("suspend".to_string()));
    m.advance(ModerationEvent::Verified(Ok(true)));
    assert_eq!(m.advance(ModerationEvent::Redacted(Err(()))), failure(500, REDACT_FAILED_REPLY));
    let mut m = ModeratorRequest::new("1f".to_string(), &Some("no".to_string()), &None);
    assert_eq!(m.advance(ModerationEvent::Verified(Ok(true))), redirect("/k/1f", false));
}

#[test]
fn submission_page_flow() {
    let mut p = SubmissionPage::new();
    assert_eq!(p.decide(), Step::Do(SubmissionPageAction::FetchPending));
    assert_eq!(p.advance(SubmissionPageEvent::Pending(Ok(false))), failure(404, SUBMISSION_NOT_FOUND_REPLY));
    let mut p = SubmissionPage::new();
    assert_eq!(p.advance(SubmissionPageEvent::Pending(Ok(true))), Step::Do(SubmissionPageAction::Render));
    assert_eq!(p.advance(SubmissionPageEvent::Rendered(Ok(()))), Step::Respond(Response::Page));
}

#[test]
fn confirmation_submit() {
    let mut c = Confirmation::new("submit".to_string());
    assert_eq!(c.decide(), Step::Do(ConfirmationAction::CheckSuspension));
    assert_eq!(c.advance(ConfirmationEvent::Suspension(Ok(false))), Step::Do(ConfirmationAction::CountRecentThreads));
    assert_eq!(c.advance(ConfirmationEvent::RecentThreads(Ok(2))), Step::Do(ConfirmationAction::ConfirmPost));
    assert_eq!(c.advance(ConfirmationEvent::Confirmed(Ok(Some(0x1f)))), redirect("/k/01f", false));
}

#[test]
fn confirmation_limits_and_errors() {
    let mut c = Confirmation::new("submit".to_string());
    c.advance(ConfirmationEvent::Suspension(Ok(false)));
    assert_eq!(c.advance(ConfirmationEvent::RecentThreads(Ok(3))), failure(429, TOO_MANY_THREADS_REPLY));
    let mut c = Confirmation::new("submit".to_string());
    c.advance(ConfirmationEvent::Suspension(Ok(false)));
    c.advance(ConfirmationEvent::RecentThreads(Ok(0)));
    assert_eq!(c.advance(ConfirmationEvent::Confirmed(Ok(None))), failure(404, SUBMISSION_NOT_FOUND_REPLY));
    let mut c = Confirmation::new("submit".to_string());
    assert_eq!(c.advance(ConfirmationEvent::Suspension(Ok(true))), failure(403, USER_SUSPENDED_REPLY));
    let mut c = Confirmation::new("other".to_string());
    assert_eq!(c.advance(ConfirmationEvent::Suspension(Ok(false))), failure(400, BAD_ACTION_REPLY));
}

#[test]
fn confirmation_cancel() {
    let mut c = Confirmation::new("cancel".to_string());
    assert_eq!(c.advance(ConfirmationEvent::Suspension(Ok(false))), Step::Do(ConfirmationAction::DeletePending));
    assert_eq!(c.advance(ConfirmationEvent::Deleted(Ok(()))), redirect("/", false));
    let mut c = Confirmation::new("cancel".to_string());
    c.advance(ConfirmationEvent::Suspension(Ok(false)));
    assert_eq!(c.advance(ConfirmationEvent::Deleted(Err(()))), failure(500, INTERNAL_SERVER_ERROR_REPLY));
}

#[test]
fn confirm_post_publishes_then_deletes() {
    let mut c = ConfirmPost::new();
    assert_eq!(c.decide(), ConfirmPostStep::Do(ConfirmPostAction::FetchPending));
    assert_eq!(c.advance(ConfirmPostEvent::Pending(Ok(Some(false)))), ConfirmPostStep::Do(ConfirmPostAction::PublishReply));
    assert_eq!(c.advance(ConfirmPostEvent::Published(Ok(9))), ConfirmPostStep::Do(ConfirmPostAction::DeletePending));
    assert_eq!(c.advance(ConfirmPostEvent::Deleted(Ok(()))), ConfirmPostStep::Finish(Ok(Some(9))));
    let mut c = ConfirmPost::new();
    assert_eq!(c.advance(ConfirmPostEvent::Pending(Ok(None))), ConfirmPostStep::Finish(Ok(None)));
    let mut c = ConfirmPost::new();
    assert_eq!(c.advance(ConfirmPostEvent::Pending(Ok(Some(true)))), ConfirmPostStep::Do(ConfirmPostAction::PublishThread));
    assert_eq!(c.advance(ConfirmPostEvent::Published(Err(()))), ConfirmPostStep::Finish(Err(())));
}

#[test]
fn board_page_flow() {
    let mut b = BoardPage::new(Some(100), None);
    assert_eq!(b.decide(), Step::Do(BoardPageAction::FetchBoard));
    assert_eq!(
        b.advance(BoardPageEvent::Board(Ok(()))),
        Step::Do(BoardPageAction::FetchThreads { before_mtime: Some(100), limit: 20 })
    );
    assert_eq!(b.advance(BoardPageEvent::Threads(Err(()))), Step::Do(BoardPageAction::Render));
    assert_eq!(b.advance(BoardPageEvent::Rendered(Ok(()))), Step::Respond(Response::Page));
    let mut b = BoardPage::new(None, Some(5));
    assert_eq!(b.advance(BoardPageEvent::Board(Err(()))), bare(404));
    let (threads, more, limit, last) = empty_board_page();
    assert!(threads.is_empty() && !more && limit == 0 && last == 0);
}

#[test]
fn thread_submission_stores_formatted_thread() {
    let s = ThreadSubmission::new(7, "b".to_string(), true, "hello".to_string(), " '''bold''' ".to_string());
    let p = s.pending_post().unwrap();
    assert!(p.is_thread);
    assert_eq!(p.uid, 7);
    assert_eq!(p.subject, Some("hello".to_string()));
    assert_eq!(p.comment, "<b>bold</b>");
    assert_eq!(p.board, Some("b".to_string()));
    assert_eq!(p.tid, None);
}

#[test]
fn reply_submission_stores_formatted_reply() {
    let r = ReplySubmission::new(9, "1f".to_string(), "a < b".to_string());
    let p = r.pending_post().unwrap();
    assert!(!p.is_thread);
    assert_eq!(p.uid, 9);
    assert_eq!(p.subject, None);
    assert_eq!(p.comment, "a &lt; b");
    assert_eq!(p.board, None);
    assert_eq!(p.tid, Some(31));
    let r = ReplySubmission::new(9, "zz".to_string(), "a".to_string());
    assert!(r.pending_post().is_none());
}
