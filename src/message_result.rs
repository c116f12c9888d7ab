use vstd::prelude::*;

use vstd::string::*;

use crate::notification::{Notification, NotificationSentiment};

verus! {

/// Declares `anyhow::Error`, the error type of the asynchronous commands, so that
/// `handle_result` can take an `anyhow::Result`. The value stays opaque: the library only
/// renders it through its `Display` impl (`to_string`) and never looks inside.
#[verifier::external_type_specification]
#[verifier::external_body]
pub struct ExAnyhowError(anyhow::Error);

/// Outcome of an asynchronous command, as it re-enters the controller.
#[derive(Debug, Clone)]
pub enum MessageResult<T> {
    Success(T),
    Error(String),
}

impl<T> MessageResult<T> {
    /// Converts the result of a fallible command into a message payload: a value is kept
    /// as it is, an error is kept as its rendered text.
    pub fn handle_result(result: anyhow::Result<T>) -> (r: MessageResult<T>)
        ensures
            result is Ok <==> r is Success,
            result is Ok ==> r == MessageResult::<T>::Success(result->Ok_0),
    {
        match result {
            Ok(v) => MessageResult::Success(v),
            Err(e) => MessageResult::Error(e.to_string()),
        }
    }
}

impl MessageResult<()> {
    /// Raises a failure notification `"<message>: <cause>."` when the command failed, and
    /// leaves the notification as it is when it succeeded.
    pub fn handle_ui_error(&self, message: &str, notification: &mut Option<Notification>)
        ensures
            match self {
                MessageResult::Success(_) => *final(notification) == *old(notification),
                MessageResult::Error(e) => {
                    &&& *final(notification) is Some
                    &&& (*final(notification))->0.message@ == message@ + seq![':', ' '] + e@
                        + seq!['.']
                    &&& (*final(notification))->0.sentiment == NotificationSentiment::Negative
                },
            },
    {
        if let MessageResult::Error(e) = self {
            let mut n = Notification::failure(message, e.as_str());
            proof {
                reveal_strlit(".");
            }
            n.message.append(".");
            *notification = Some(n);
        }
    }
}

} // verus!
