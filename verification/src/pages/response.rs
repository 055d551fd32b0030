//! What a request handler answers, and the steps of the handlers'
//! decisions: either ask for something outside (the database, the
//! settings) or answer.

use vstd::prelude::*;
use vstd::string::StringExecFns;

verus! {

/// The reply to a request made by a suspended user.
pub const USER_SUSPENDED_REPLY: &'static str = "আপনি বর্তমানে ফোরামে অংশগ্রহণ থেকে সাময়িকভাবে স্থগিত রয়েছেন।";

/// The reply when the server fails.
pub const INTERNAL_SERVER_ERROR_REPLY: &'static str = "সার্ভারে একটি অভ্যন্তরীণ ত্রুটি ঘটেছে। অনুগ্রহ করে প্রশাসকের সাথে যোগাযোগ করুন।";

/// `400 Bad Request`.
pub const BAD_REQUEST: u16 = 400;
/// `401 Unauthorized`.
pub const UNAUTHORIZED: u16 = 401;
/// `403 Forbidden`.
pub const FORBIDDEN: u16 = 403;
/// `404 Not Found`.
pub const NOT_FOUND: u16 = 404;
/// `429 Too Many Requests`.
pub const TOO_MANY_REQUESTS: u16 = 429;
/// `500 Internal Server Error`.
pub const INTERNAL_SERVER_ERROR: u16 = 500;

/// A handler's answer: a redirection, or a failure status with an
/// optional message.
#[derive(Debug, PartialEq, Eq)]
pub enum Response {
    /// The rendered page, `200 OK`.
    Page,
    Redirect { location: String, permanent: bool },
    Failure { status: u16, message: Option<&'static str> },
}

/// A `Response` as a value.
pub enum ResponseView {
    Page,
    Redirect { location: Seq<char>, permanent: bool },
    Failure { status: u16, message: Option<Seq<char>> },
}

impl View for Response {
    type V = ResponseView;

    open spec fn view(&self) -> ResponseView {
        match self {
            Response::Page => ResponseView::Page,
            Response::Redirect { location, permanent } => ResponseView::Redirect {
                location: location@,
                permanent: *permanent,
            },
            Response::Failure { status, message } => ResponseView::Failure {
                status: *status,
                message: match message {
                    Some(m) => Some(m@),
                    None => None,
                },
            },
        }
    }
}

/// A redirection to `location`.
pub open spec fn redirect_to(location: Seq<char>, permanent: bool) -> ResponseView {
    ResponseView::Redirect { location, permanent }
}

/// A failure with `status` and `message`.
pub open spec fn failure(status: u16, message: Seq<char>) -> ResponseView {
    ResponseView::Failure { status, message: Some(message) }
}

/// A failure with `status` and no message.
pub open spec fn bare_failure(status: u16) -> ResponseView {
    ResponseView::Failure { status, message: None }
}

/// The next step of a handler: an action of type `A` to perform outside,
/// or the answer.
#[derive(Debug, PartialEq, Eq)]
pub enum Step<A> {
    Do(A),
    Respond(Response),
}

/// A `Step` as a value.
pub enum StepView<A> {
    Do(A),
    Respond(ResponseView),
}

impl<A> View for Step<A> {
    type V = StepView<A>;

    open spec fn view(&self) -> StepView<A> {
        match self {
            Step::Do(a) => StepView::Do(*a),
            Step::Respond(r) => StepView::Respond(r@),
        }
    }
}

/// Answers with a failure.
pub fn fail<A>(status: u16, message: &'static str) -> (s: Step<A>)
    ensures
        s@ == StepView::<A>::Respond(failure(status, message@)),
{
    Step::Respond(Response::Failure { status, message: Some(message) })
}

/// Answers with a failure and no message.
pub fn fail_bare<A>(status: u16) -> (s: Step<A>)
    ensures
        s@ == StepView::<A>::Respond(bare_failure(status)),
{
    Step::Respond(Response::Failure { status, message: None })
}

/// Answers with the rendered page.
pub fn page<A>() -> (s: Step<A>)
    ensures
        s@ == StepView::<A>::Respond(ResponseView::Page),
{
    Step::Respond(Response::Page)
}

/// Answers with a redirection.
pub fn redirect<A>(location: String, permanent: bool) -> (s: Step<A>)
    ensures
        s@ == StepView::<A>::Respond(redirect_to(location@, permanent)),
{
    Step::Respond(Response::Redirect { location, permanent })
}

/// `prefix` followed by `rest`.
pub fn joined(prefix: &str, rest: &str) -> (r: String)
    ensures
        r@ == prefix@ + rest@,
{
    let mut s = String::new();
    s.append(prefix);
    s.append(rest);
    s
}

} // verus!
