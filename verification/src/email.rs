//! E-mails sent to members, as they are recorded.
use vstd::prelude::*;
use crate::dates::DateTime;

verus! {

/// A recorded e-mail sent to a member.
#[derive(Debug, Clone)]
pub struct Email {
    pub id: Option<i32>,
    pub to_member_id: i32,
    pub subject: String,
    pub body: String,
    pub created_at: Option<DateTime>,
}

/// An e-mail sent today, with the full name of the member it went to.
#[derive(Debug, Clone)]
pub struct TodayEmail {
    pub id: i32,
    pub member_id: i32,
    pub member_full_name: String,
    pub subject: String,
    pub body: String,
    pub created_at: Option<DateTime>,
}

/// What the e-mail comparison (`==`) decides: both have an id and the ids
/// are equal.
pub open spec fn same_email_ids(a: Option<i32>, b: Option<i32>) -> bool {
    match (a, b) {
        (Some(x), Some(y)) => x == y,
        _ => false,
    }
}

impl Email {
    /// Whether the e-mail may be sent: it has a subject and a body.
    pub open spec fn valid(&self) -> bool {
        self.subject@.len() > 0 && self.body@.len() > 0
    }

    /// Returns true if the entity is valid (ready for submission to the db).
    pub fn is_valid(&self) -> (r: bool)
        ensures
            r == self.valid(),
    {
        if self.subject.as_str().is_empty() || self.body.as_str().is_empty() {
            return false;
        }
        true
    }

    /// The record of an e-mail to be stored: no id or timestamp yet.
    pub fn new_record(to_member_id: i32, subject: String, body: String) -> (r: Email)
        ensures
            r.id is None,
            r.to_member_id == to_member_id,
            r.subject == subject,
            r.body == body,
            r.created_at is None,
    {
        Email { id: None, to_member_id, subject, body, created_at: None }
    }
}

impl PartialEq for Email {
    fn eq(&self, other: &Self) -> (r: bool) {
        match (self.id, other.id) {
            (Some(a), Some(b)) => a == b,
            _ => false,
        }
    }
}

impl vstd::std_specs::cmp::PartialEqSpecImpl for Email {
    open spec fn obeys_eq_spec() -> bool {
        true
    }

    open spec fn eq_spec(&self, other: &Email) -> bool {
        same_email_ids(self.id, other.id)
    }
}

impl Default for Email {
    fn default() -> (r: Email)
        ensures
            r.id is None,
            r.to_member_id == 0,
            r.subject@ == Seq::<char>::empty(),
            r.body@ == Seq::<char>::empty(),
            r.created_at is None,
    {
        Email { id: None, to_member_id: 0, subject: String::new(), body: String::new(), created_at: None }
    }
}

} // verus!
