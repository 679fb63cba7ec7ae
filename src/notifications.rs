//! The bodies of the dialog and notification requests, and the dialog's
//! answer.

use vstd::prelude::*;

verus! {

/// A yes/no question for the user.
pub struct AskPayload {
    pub title: String,
    pub question: String,
}

/// The user's answer to a question.
pub struct AskResponse {
    pub answer: bool,
}

/// A message that the user acknowledges.
pub struct MessagePayload {
    pub title: String,
    pub message: String,
}

/// A system notification.
pub struct NotificationPayload {
    pub title: String,
    pub body: String,
}

} // verus!
