//! Deciding what is sent: the checks before an e-mail goes out, and the
//! outcome of sending to many members.
use vstd::prelude::*;
use lettre::address::AddressError;
use lettre::Address;
use crate::email::Email;
use crate::member::Member;
use crate::text::{i32_text, int_text, is_blank, is_blank_text, nat_text, usize_text};

verus! {

#[verifier::external_type_specification]
#[verifier::external_body]
pub struct ExAddress(Address);

#[verifier::external_type_specification]
#[verifier::external_body]
pub struct ExAddressError(AddressError);

/// Whether `lettre` parses the text as an e-mail address.
pub uninterp spec fn lettre_address_valid(s: Seq<char>) -> bool;

/// Calls `str::parse::<lettre::Address>`. Claims: it succeeds exactly on
/// the texts named `lettre_address_valid`, and only on texts with an `@`
/// (the text is split at its last `@` into user and domain).
#[verifier::external_body]
fn parse_address(s: &str) -> (r: Result<Address, AddressError>)
    ensures
        r is Ok <==> lettre_address_valid(s@),
        r is Ok ==> s@.contains('\u{40}'),
{
    s.parse::<Address>()
}

/// An e-mail ready to be handed to the mail transport, and the record to
/// store once it went out. Both addresses are texts that parse as e-mail
/// addresses.
pub struct OutgoingEmail {
    pub from_name: String,
    pub from: String,
    pub to_name: String,
    pub to: String,
    pub subject: String,
    pub body: String,
    pub record: Email,
}

/// The messages of a failed single send.
pub open spec fn no_email_text(member_id: int) -> Seq<char> {
    "Member "@ + int_text(member_id) + " has no email address"@
}

pub open spec fn invalid_from_text(from: Seq<char>) -> Seq<char> {
    "Invalid from email address: "@ + from
}

pub open spec fn invalid_to_text(to: Seq<char>) -> Seq<char> {
    "Invalid member email address: "@ + to
}

/// Prepares the e-mail to one member.
///
/// The member must have an e-mail address, and both the sender's and the
/// member's address must parse; the e-mail goes from `from_name <from_email>`
/// to the member (shown by name) with the given subject and body, and the
/// record keeps `record_body`.
pub fn plan_single_email(
    member: &Member,
    member_id: i32,
    from_name: &String,
    from_email: &String,
    subject: String,
    body: String,
    record_body: String,
) -> (r: Result<OutgoingEmail, String>)
    ensures
        member.email@.len() == 0 ==> (r matches Err(m) && m@ == no_email_text(member_id as int)),
        member.email@.len() > 0 && !lettre_address_valid(from_email@) ==> (r matches Err(m) && m@
            == invalid_from_text(from_email@)),
        member.email@.len() > 0 && lettre_address_valid(from_email@) && !lettre_address_valid(
            member.email@,
        ) ==> (r matches Err(m) && m@ == invalid_to_text(member.email@)),
        r is Ok <==> (member.email@.len() > 0 && lettre_address_valid(from_email@)
            && lettre_address_valid(member.email@)),
        r matches Ok(out) ==> {
            &&& out.from_name == *from_name
            &&& out.from@ == from_email@
            &&& lettre_address_valid(out.from@)
            &&& out.to_name@ == member.name@
            &&& out.to@ == member.email@
            &&& lettre_address_valid(out.to@)
            &&& out.subject == subject
            &&& out.body == body
            &&& out.record.id is None
            &&& out.record.to_member_id == member_id
            &&& out.record.subject == subject
            &&& out.record.body == record_body
            &&& out.record.created_at is None
        },
{
    if member.email.as_str().is_empty() {
        let mut m = String::from_str("Member ");
        let id = i32_text(member_id);
        m.append(id.as_str());
        m.append(" has no email address");
        return Err(m);
    }
    match parse_address(from_email.as_str()) {
        Ok(_) => {},
        Err(_) => {
            let mut m = String::from_str("Invalid from email address: ");
            m.append(from_email.as_str());
            return Err(m);
        },
    };
    match parse_address(member.email.as_str()) {
        Ok(_) => {},
        Err(_) => {
            let mut m = String::from_str("Invalid member email address: ");
            m.append(member.email.as_str());
            return Err(m);
        },
    };
    let record = Email::new_record(member_id, subject.clone(), record_body);
    Ok(OutgoingEmail {
        from_name: from_name.clone(),
        from: from_email.clone(),
        to_name: member.display_text(),
        to: member.email.clone(),
        subject,
        body,
        record,
    })
}

/// Checks a request to e-mail every member with one of some interests:
/// interests are given, and subject and body are not blank.
pub fn validate_interests_email(interest_count: usize, subject: &str, body: &str) -> (r: Result<(), String>)
    ensures
        interest_count == 0 ==> (r matches Err(m) && m@ == "No interests provided"@),
        interest_count > 0 && is_blank_text(subject@) ==> (r matches Err(m) && m@ == "Subject cannot be empty"@),
        interest_count > 0 && !is_blank_text(subject@) && is_blank_text(body@) ==> (r matches Err(m)
            && m@ == "Email body cannot be empty"@),
        r is Ok <==> (interest_count > 0 && !is_blank_text(subject@) && !is_blank_text(body@)),
{
    if interest_count == 0 {
        return Err(String::from_str("No interests provided"));
    }
    if is_blank(subject) {
        return Err(String::from_str("Subject cannot be empty"));
    }
    if is_blank(body) {
        return Err(String::from_str("Email body cannot be empty"));
    }
    Ok(())
}

/// Checks a request to send a coupon to every member with one of some
/// interests: interests are given, the subject is not blank, an expiry
/// date is given and the description is not blank.
pub fn validate_interests_cupon_email(interest_count: usize, subject: &str, has_expiry: bool, description: &str) -> (r: Result<(), String>)
    ensures
        interest_count == 0 ==> (r matches Err(m) && m@ == "No interests provided"@),
        interest_count > 0 && is_blank_text(subject@) ==> (r matches Err(m) && m@ == "Subject cannot be empty"@),
        interest_count > 0 && !is_blank_text(subject@) && !has_expiry ==> (r matches Err(m) && m@
            == "Cupon expiration cannot be empty"@),
        interest_count > 0 && !is_blank_text(subject@) && has_expiry && is_blank_text(description@)
            ==> (r matches Err(m) && m@ == "Cupon description cannot be empty"@),
        r is Ok <==> (interest_count > 0 && !is_blank_text(subject@) && has_expiry && !is_blank_text(
            description@,
        )),
{
    if interest_count == 0 {
        return Err(String::from_str("No interests provided"));
    }
    if is_blank(subject) {
        return Err(String::from_str("Subject cannot be empty"));
    }
    if !has_expiry {
        return Err(String::from_str("Cupon expiration cannot be empty"));
    }
    if is_blank(description) {
        return Err(String::from_str("Cupon description cannot be empty"));
    }
    Ok(())
}

/// The count of sends that went out and that failed while e-mailing many members.
#[derive(Debug, Clone, Copy, PartialEq, Eq, Structural)]
pub struct SendTally {
    pub successful: usize,
    pub failed: usize,
}

impl SendTally {
    /// No send yet.
    pub fn new() -> (r: SendTally)
        ensures
            r.successful == 0,
            r.failed == 0,
    {
        SendTally { successful: 0, failed: 0 }
    }

    /// Counts one member: a send that went out, or a failure (a member
    /// without id, a template or coupon that could not be made, or a send
    /// that failed).
    pub fn record(&mut self, sent: bool)
        requires
            old(self).successful + old(self).failed < usize::MAX,
        ensures
            sent ==> final(self).successful == old(self).successful + 1 && final(self).failed == old(self).failed,
            !sent ==> final(self).failed == old(self).failed + 1 && final(self).successful == old(self).successful,
    {
        if sent {
            self.successful = self.successful + 1;
        } else {
            self.failed = self.failed + 1;
        }
    }
}

/// What e-mailing the members with some interests answers, from the count
/// of sends and the number of members.
pub open spec fn interests_outcome_text(t: SendTally, total: nat) -> Option<Seq<char>> {
    if t.failed > 0 && t.successful == 0 {
        Some("Failed to send emails to any members"@)
    } else if t.failed > 0 {
        Some("Partially successful: sent "@ + nat_text(t.successful as nat) + "/"@ + nat_text(total)
            + " emails"@)
    } else {
        None
    }
}

/// What sending the birthday e-mails answers, from the count of sends and
/// the number of members with a birthday today.
pub open spec fn birthday_outcome_text(t: SendTally, total: nat) -> Option<Seq<char>> {
    if t.failed > 0 && t.successful == 0 {
        Some("Failed to send emails to any of the "@ + nat_text(total) + " members"@)
    } else if t.failed > 0 {
        Some("Partially successful: sent "@ + nat_text(t.successful as nat) + "/"@ + nat_text(total)
            + " emails successfully, "@ + nat_text(t.failed as nat) + " failed"@)
    } else {
        None
    }
}

/// The answer of e-mailing the members with some interests: success when
/// no send failed, otherwise a total or partial failure.
pub fn interests_send_outcome(tally: SendTally, total: usize) -> (r: Result<(), String>)
    ensures
        r is Ok <==> tally.failed == 0,
        r matches Err(m) ==> Some(m@) == interests_outcome_text(tally, total as nat),
{
    if tally.failed > 0 && tally.successful == 0 {
        Err(String::from_str("Failed to send emails to any members"))
    } else if tally.failed > 0 {
        let mut m = String::from_str("Partially successful: sent ");
        let s = usize_text(tally.successful);
        m.append(s.as_str());
        m.append("/");
        let t = usize_text(total);
        m.append(t.as_str());
        m.append(" emails");
        Err(m)
    } else {
        Ok(())
    }
}

/// The answer of sending the birthday e-mails: success when no send
/// failed, otherwise a total or partial failure.
pub fn birthday_send_outcome(tally: SendTally, total: usize) -> (r: Result<(), String>)
    ensures
        r is Ok <==> tally.failed == 0,
        r matches Err(m) ==> Some(m@) == birthday_outcome_text(tally, total as nat),
{
    if tally.failed > 0 && tally.successful == 0 {
        let mut m = String::from_str("Failed to send emails to any of the ");
        let t = usize_text(total);
        m.append(t.as_str());
        m.append(" members");
        Err(m)
    } else if tally.failed > 0 {
        let mut m = String::from_str("Partially successful: sent ");
        let s = usize_text(tally.successful);
        m.append(s.as_str());
        m.append("/");
        let t = usize_text(total);
        m.append(t.as_str());
        m.append(" emails successfully, ");
        let f = usize_text(tally.failed);
        m.append(f.as_str());
        m.append(" failed");
        Err(m)
    } else {
        Ok(())
    }
}

/// The answer of the mail server connection test: the server answered
/// yes, answered no (reason unknown), or the test failed with a reason.
pub fn email_test_outcome(result: Result<bool, String>) -> (r: Result<(), String>)
    ensures
        r is Ok <==> (result matches Ok(b) && b),
        (result matches Ok(b) && !b) ==> (r matches Err(m) && m@
            == "Failed to connect to email server, reason unknown"@),
        result matches Err(e) ==> (r matches Err(m) && m@ == "Failed to connect to email server "@ + e@),
{
    match result {
        Ok(true) => Ok(()),
        Ok(false) => Err(String::from_str("Failed to connect to email server, reason unknown")),
        Err(e) => {
            let mut m = String::from_str("Failed to connect to email server ");
            m.append(e.as_str());
            Err(m)
        },
    }
}

} // verus!
