//! Decisions of the outside services: which object storage operation a request names, and
//! in which order the administrators are notified.

use vstd::prelude::*;
use crate::models::str_eq;

verus! {

/// An operation on a stored object that a presigned address grants.
#[derive(Debug, Clone, Copy, PartialEq, Eq, Structural)]
pub enum ObjectStorageOperation {
    Get,
    Put,
}

impl ObjectStorageOperation {
    /// The operation's name in requests and responses.
    pub open spec fn name(self) -> Seq<char> {
        match self {
            ObjectStorageOperation::Get => "Get"@,
            ObjectStorageOperation::Put => "Put"@,
        }
    }

    pub open spec fn from_name(s: Seq<char>) -> Option<ObjectStorageOperation> {
        if s == "Get"@ {
            Some(ObjectStorageOperation::Get)
        } else if s == "Put"@ {
            Some(ObjectStorageOperation::Put)
        } else {
            None
        }
    }

    pub fn to_string(&self) -> (s: String)
        ensures
            s@ == self.name(),
    {
        match self {
            ObjectStorageOperation::Get => String::from_str("Get"),
            ObjectStorageOperation::Put => String::from_str("Put"),
        }
    }

    pub fn parse(s: &str) -> (r: Option<ObjectStorageOperation>)
        ensures
            r == ObjectStorageOperation::from_name(s@),
    {
        if str_eq(s, "Get") {
            Some(ObjectStorageOperation::Get)
        } else if str_eq(s, "Put") {
            Some(ObjectStorageOperation::Put)
        } else {
            None
        }
    }
}

/// Each name parses back to its operation.
pub proof fn lemma_operation_names_round_trip(op: ObjectStorageOperation)
    ensures
        ObjectStorageOperation::from_name(op.name()) == Some(op),
{
    reveal_strlit("Get");
    reveal_strlit("Put");
    assert(op.name().len() == 3);
    if op == ObjectStorageOperation::Put {
        assert(op.name()[0] != "Get"@[0]);
    }
}

/// Seconds to wait after each notice to an administrator: the mail account may send one
/// message per second.
pub const ADMIN_EMAIL_PAUSE_SECS: u64 = 1;

/// Character set of the subject and body of every message.
pub const EMAIL_CHARSET: &'static str = "UTF-8";

/// The next administrator to notify, once `sent` of them have been (whether or not their
/// message went through): the administrators are notified one by one, in order, and the
/// notification is done after the last.
pub fn next_admin_email(admin_emails: &Vec<String>, sent: usize) -> (next: Option<String>)
    ensures
        sent < admin_emails.len() ==> next == Some(admin_emails[sent as int]),
        sent >= admin_emails.len() ==> next is None,
{
    if sent < admin_emails.len() {
        Some(admin_emails[sent].clone())
    } else {
        None
    }
}

} // verus!
