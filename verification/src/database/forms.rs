//! The form of a new thread, as the database layer receives it.

use vstd::prelude::*;

verus! {

/// A new thread's subject and comment.
pub struct ThreadForm {
    pub subject: String,
    pub comment: String,
}

} // verus!
