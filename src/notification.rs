use vstd::prelude::*;
use vstd::string::*;

verus! {

#[derive(Debug, Clone, Copy, PartialEq, Eq, Structural)]
pub enum NotificationSentiment {
    Positive,
    Negative,
}

/// A transient message about the outcome of an action; at most one is shown at a time.
#[derive(Debug, Clone)]
pub struct Notification {
    pub message: String,
    pub sentiment: NotificationSentiment,
}

impl Notification {
    pub fn new(message: String, sentiment: NotificationSentiment) -> (r: Notification)
        ensures
            r.message == message,
            r.sentiment == sentiment,
    {
        Notification { message, sentiment }
    }

    /// A failure notification reading `"<context>: <cause>"`.
    pub fn failure(context: &str, cause: &str) -> (r: Notification)
        ensures
            r.message@ == context@ + seq![':', ' '] + cause@,
            r.sentiment == NotificationSentiment::Negative,
    {
        proof {
            reveal_strlit(": ");
        }
        let message = String::from_str(context).concat(": ").concat(cause);
        proof {
            assert(message@ =~= context@ + seq![':', ' '] + cause@);
        }
        Notification { message, sentiment: NotificationSentiment::Negative }
    }
}

} // verus!
