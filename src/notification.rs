use vstd::prelude::*;
use vstd::string::StringExecFns;

verus! {

/// A notification to show: a title and a body, taken as they are.
#[derive(Clone, Debug, PartialEq, Eq)]
pub struct NotificationRequest {
    pub title: String,
    pub body: String,
}

impl NotificationRequest {
    /// Builds a request; any title and body are accepted, empty ones too.
    pub fn new(title: &str, body: &str) -> (r: NotificationRequest)
        ensures
            r.title@ == title@,
            r.body@ == body@,
    {
        NotificationRequest { title: String::from_str(title), body: String::from_str(body) }
    }
}

/// The result handed back to the caller of the notification command, from
/// the outcome of submitting the request to the notification service (its
/// error already turned into a message): success stays success, and the
/// service's message is passed on unchanged.
pub fn notification_result(submission: Result<(), String>) -> (r: Result<(), String>)
    ensures
        r is Ok <==> submission is Ok,
        r is Err ==> r->Err_0@ == submission->Err_0@,
{
    match submission {
        Ok(()) => Ok(()),
        Err(message) => Err(message),
    }
}

} // verus!
