//! Creating and showing posts.

use crate::text::{join_strings, joined, string_views};
use vstd::prelude::*;

verus! {

/// Whether the viewer of a post is signed in, and whether they may edit it:
/// only the post's author may.
pub fn show_flags(viewer: Option<u64>, author: Option<u64>) -> (res: (bool, bool))
    ensures
        res.0 == (viewer is Some),
        res.1 == (viewer is Some && author is Some && viewer == author),
{
    let mut is_signedin = false;
    let mut can_edit = false;
    if let Some(u) = viewer {
        is_signedin = true;
        if let Some(pu) = author {
            can_edit = u == pu;
        }
    }
    (is_signedin, can_edit)
}

/// The message shown when creating a post failed, with the reasons given.
pub fn create_failure_message(details: &str) -> (res: String)
    ensures
        res@ == "Failed to create post: "@ + details@,
{
    let mut message = "Failed to create post: ".to_owned();
    message.append(details);
    message
}

/// The message shown when the submitted post form is invalid: the form's
/// errors, joined with spaces.
pub fn invalid_form_message(errors: &Vec<String>) -> (res: String)
    ensures
        res@ == "Failed to create post: "@ + joined(string_views(errors@), " "@),
{
    let details = join_strings(errors, " ");
    create_failure_message(details.as_str())
}

} // verus!
