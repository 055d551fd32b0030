//! The page shown for a path that no route serves.

use vstd::prelude::*;

use crate::pages::response::joined;

verus! {

/// The body of the `404 Not Found` page for the path `uri`.
pub fn fallback_message(uri: &str) -> (r: String)
    ensures
        r@ == "No route for "@ + uri@ + ". Go back to <a href='/'>homepage</a>?"@,
{
    let start = joined("No route for ", uri);
    joined(start.as_str(), ". Go back to <a href='/'>homepage</a>?")
}

} // verus!
