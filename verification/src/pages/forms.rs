//! The forms and query strings that the board's pages receive.

use vstd::prelude::*;

verus! {

/// A new thread posted on a board's page.
pub struct ThreadForm {
    pub subject: String,
    pub comment: String,
}

/// A new thread posted from the home page, which names its board.
pub struct PopupThreadForm {
    pub subject: String,
    pub comment: String,
    pub board: String,
}

/// A reply to a thread.
pub struct ReplyForm {
    pub comment: String,
}

/// A moderator's action on a post: credentials, whether to redact and
/// whether to suspend the author (`"redact"`, `"suspend"`), and a reason.
pub struct ModerationForm {
    pub username: String,
    pub passphrase: String,
    pub redact: Option<String>,
    pub suspend: Option<String>,
    pub reason: String,
}

/// A request for a moderator registration token.
pub struct TokenForm {
    pub server_pin: String,
    pub server_passphrase: String,
    pub token_passphrase: String,
}

/// A moderator's registration.
pub struct RegisterationForm {
    pub token_passphrase: String,
    pub username: String,
    pub passphrase: String,
}

/// Pagination by thread id.
pub struct PaginationWithID {
    pub limit: Option<i32>,
    pub before_id: Option<String>,
}

/// Pagination by modification time, in Unix seconds.
pub struct PaginationWithMTime {
    pub limit: Option<i32>,
    pub before_mtime: Option<i64>,
}

/// The confirmation of a pending post: `"submit"` or `"cancel"`.
pub struct SubmissionForm {
    pub action: String,
}

} // verus!
