//! Flash labels: the kind and text of the one-shot message that a page shows.

use vstd::prelude::*;
use crate::text::same_text;

verus! {

/// A flash message as it arrives with a request: its kind and its text.
pub struct FlashMessage {
    kind: String,
    message: String,
}

impl FlashMessage {
    pub fn new(kind: String, message: String) -> (res: FlashMessage)
        ensures
            res.kind_spec() == kind@,
            res.message_spec() == message@,
    {
        FlashMessage { kind, message }
    }

    pub closed spec fn kind_spec(&self) -> Seq<char> {
        self.kind@
    }

    pub closed spec fn message_spec(&self) -> Seq<char> {
        self.message@
    }

    pub fn kind(&self) -> (res: &str)
        ensures
            res@ == self.kind_spec(),
    {
        self.kind.as_str()
    }

    pub fn message(&self) -> (res: &str)
        ensures
            res@ == self.message_spec(),
    {
        self.message.as_str()
    }
}

/// What a page shows of a flash message: the alert style and the text.
pub struct FlashLabel<'a> {
    pub alert_type: &'static str,
    pub content: &'a str,
}

/// The alert style that a flash message of kind `kind` is shown with.
pub open spec fn alert_for_kind(kind: Seq<char>) -> Seq<char> {
    if kind == "success"@ {
        "success"@
    } else if kind == "error"@ {
        "error"@
    } else if kind == "warning"@ {
        "warning"@
    } else {
        "default"@
    }
}

impl<'a> FlashLabel<'a> {
    pub fn success(message: &'a str) -> (res: FlashLabel<'a>)
        ensures
            res.alert_type@ == "success"@,
            res.content == message,
    {
        FlashLabel { alert_type: "success", content: message }
    }

    pub fn error(message: &'a str) -> (res: FlashLabel<'a>)
        ensures
            res.alert_type@ == "error"@,
            res.content == message,
    {
        FlashLabel { alert_type: "error", content: message }
    }

    pub fn warning(message: &'a str) -> (res: FlashLabel<'a>)
        ensures
            res.alert_type@ == "warning"@,
            res.content == message,
    {
        FlashLabel { alert_type: "warning", content: message }
    }

    pub fn default(message: &'a str) -> (res: FlashLabel<'a>)
        ensures
            res.alert_type@ == "default"@,
            res.content == message,
    {
        FlashLabel { alert_type: "default", content: message }
    }

    /// The label of a page that has no flash message.
    pub fn none() -> (res: FlashLabel<'a>)
        ensures
            res.alert_type@ == "none"@,
            res.content@ == ""@,
    {
        FlashLabel { alert_type: "none", content: "" }
    }
}

/// The label for the flash message of a request, if it has one.
pub fn flash_label<'a>(flash: &'a Option<FlashMessage>) -> (res: FlashLabel<'a>)
    ensures
        match flash {
            Some(fl) => res.alert_type@ == alert_for_kind(fl.kind_spec())
                && res.content@ == fl.message_spec(),
            None => res.alert_type@ == "none"@ && res.content@ == ""@,
        },
{
    match flash {
        Some(fl) => {
            let kind = fl.kind();
            if same_text(kind, "success") {
                FlashLabel::success(fl.message())
            } else if same_text(kind, "error") {
                FlashLabel::error(fl.message())
            } else if same_text(kind, "warning") {
                FlashLabel::warning(fl.message())
            } else {
                FlashLabel::default(fl.message())
            }
        },
        None => FlashLabel::none(),
    }
}

} // verus!
