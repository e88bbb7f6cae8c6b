//! Dialogs the library asks the surrounding shell to display. The
//! library only decides a dialog's kind and wording; showing it, and
//! collecting the user's choice, is the shell's work.

use vstd::prelude::*;

verus! {

/// Kind of dialog to show.
#[derive(Clone, Copy, PartialEq, Eq, Structural, Debug)]
pub enum MessageKind {
    /// A yes/no question; the shell reports the user's choice.
    Confirm,
    /// A plain notice.
    Info,
    /// An error notice.
    Error,
}

/// One dialog for the shell to display.
#[derive(Debug)]
pub struct MessageRequest {
    pub title: String,
    pub text: String,
    pub kind: MessageKind,
}

/// Builds the yes/no confirmation dialog with the given wording.
pub fn confirm_message(title: &str, text: &str) -> (r: MessageRequest)
    ensures
        r.title@ == title@,
        r.text@ == text@,
        r.kind == MessageKind::Confirm,
{
    MessageRequest { title: title.to_owned(), text: text.to_owned(), kind: MessageKind::Confirm }
}

/// Builds the plain notice dialog with the given wording.
pub fn info_message(title: &str, text: &str) -> (r: MessageRequest)
    ensures
        r.title@ == title@,
        r.text@ == text@,
        r.kind == MessageKind::Info,
{
    MessageRequest { title: title.to_owned(), text: text.to_owned(), kind: MessageKind::Info }
}

/// Builds the error notice dialog with the given wording.
pub fn error_message(title: &str, text: &str) -> (r: MessageRequest)
    ensures
        r.title@ == title@,
        r.text@ == text@,
        r.kind == MessageKind::Error,
{
    MessageRequest { title: title.to_owned(), text: text.to_owned(), kind: MessageKind::Error }
}

} // verus!
