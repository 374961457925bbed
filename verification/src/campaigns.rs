//! Mailings to many members (the birthday greetings, and the e-mails and
//! coupons to the members with some interests), run one member at a time:
//! the run says what to do next, and is told how it went.
use vstd::prelude::*;
use crate::cupon::Cupon;
use crate::dates::Date;
use crate::mailing::{SendTally, birthday_outcome_text, birthday_send_outcome, interests_outcome_text, interests_send_outcome};
use crate::member::Member;
use crate::templates::{birthday_styled, cupon_parts_styled, cupon_styled, get_birthday_styled, get_cupon_styled, get_normal_styled, normal_styled};

verus! {

/// The mailing that runs.
pub enum Campaign {
    /// The birthday greeting to each member with a birthday today.
    Birthday,
    /// An e-mail to each member with one of some interests.
    Interests { subject: String, original_body: String },
    /// A coupon (with one code for all) and its e-mail to each member with
    /// one of some interests.
    InterestsCupon {
        subject: String,
        original_body: String,
        code: String,
        description: String,
        expires_at: Option<Date>,
    },
}

/// Where a run stands.
#[derive(Debug, Clone, Copy, PartialEq, Eq, Structural)]
pub enum CampaignPhase {
    /// Not started.
    Ready,
    /// Waiting for the coupon of the current member to be stored.
    AddingCupon,
    /// Waiting for the e-mail to the current member to go out.
    Sending,
    /// Every member was handled.
    Finished,
}

/// A mailing under way over its members, in order.
pub struct CampaignRun {
    pub campaign: Campaign,
    pub members: Vec<Member>,
    /// The member being handled, or the number of members once finished.
    pub next: usize,
    pub tally: SendTally,
    pub phase: CampaignPhase,
}

/// What a run is told.
pub enum CampaignEvent {
    /// Begin.
    Start,
    /// How storing the current member's coupon went.
    CuponAdded(Result<(), String>),
    /// How sending the e-mail to the current member went.
    Sent(Result<(), String>),
}

/// An e-mail to send to a member, and the body to keep on record.
pub struct EmailToSend {
    pub member_id: i32,
    pub subject: String,
    pub body: String,
    pub record_body: String,
}

/// What a run asks for.
pub enum CampaignAction {
    /// Store this coupon.
    AddCupon(Cupon),
    /// Send this e-mail.
    Send(EmailToSend),
    /// The mailing is over, with this answer.
    Finish(Result<(), String>),
}

/// The first member at or after `from` that has an id (or the number of members).
pub open spec fn first_with_id(ms: Seq<Member>, from: int) -> int
    decreases ms.len() - from,
{
    if from >= ms.len() {
        ms.len() as int
    } else if ms[from].id is Some {
        from
    } else {
        first_with_id(ms, from + 1)
    }
}

/// The members between `from` and the next one with an id have none.
pub proof fn lemma_first_with_id(ms: Seq<Member>, from: int)
    requires
        0 <= from <= ms.len(),
    ensures
        from <= first_with_id(ms, from) <= ms.len(),
        forall|k: int| from <= k < first_with_id(ms, from) ==> (#[trigger] ms[k]).id is None,
        first_with_id(ms, from) < ms.len() ==> ms[first_with_id(ms, from)].id is Some,
    decreases ms.len() - from,
{
    if from < ms.len() && ms[from].id is None {
        lemma_first_with_id(ms, from + 1);
    }
}

/// The coupon a coupon mailing stores for a member: a new, unused coupon
/// with the mailing's code, description and expiry date.
pub open spec fn cupon_for(c: Campaign, m: Member, k: Cupon) -> bool {
    match c {
        Campaign::InterestsCupon { code, description, expires_at, .. } => {
            &&& k.id is None
            &&& k.member_id == m.id
            &&& k.code@ == code@
            &&& k.description@ == description@
            &&& !k.used
            &&& !k.is_deleted
            &&& k.expires_at == expires_at
            &&& k.created_at is None
            &&& k.updated_at is None
        },
        _ => false,
    }
}

/// The e-mail a mailing sends to a member.
pub open spec fn email_for(c: Campaign, m: Member, e: EmailToSend) -> bool {
    &&& m.id == Some(e.member_id)
    &&& match c {
        Campaign::Birthday => {
            &&& e.subject@ == "Feliz Cumpleaños!"@
            &&& e.body@ == birthday_styled(m)
            &&& e.record_body@ == "Email de Cumpleaños por defecto."@
        },
        Campaign::Interests { subject, original_body } => {
            &&& e.subject@ == subject@
            &&& e.body@ == normal_styled(original_body@)
            &&& e.record_body@ == original_body@
        },
        Campaign::InterestsCupon { subject, original_body, code, description, expires_at } => {
            &&& e.subject@ == subject@
            &&& e.body@ == cupon_parts_styled(original_body@, m, code@, description@, expires_at)
            &&& e.record_body@ == original_body@
        },
    }
}

/// The answer of a finished mailing: None for success, else the error's text.
/// A mailing by interests that finds no member fails.
pub open spec fn campaign_outcome(c: Campaign, t: SendTally, total: nat) -> Option<Seq<char>> {
    if c is Birthday {
        birthday_outcome_text(t, total)
    } else if total == 0 {
        Some("No members found with the provided interests"@)
    } else {
        interests_outcome_text(t, total)
    }
}

/// `o` is the answer `campaign_outcome` describes.
pub open spec fn answers(o: Result<(), String>, outcome: Option<Seq<char>>) -> bool {
    match outcome {
        None => o is Ok,
        Some(m) => o matches Err(s) && s@ == m,
    }
}

impl CampaignRun {
    /// The run is consistent: every member before `next` was counted once,
    /// and a pending coupon or e-mail is for a member with an id.
    pub open spec fn wf(self) -> bool {
        &&& self.members@.len() < usize::MAX
        &&& self.next <= self.members@.len()
        &&& self.tally.successful + self.tally.failed == self.next
        &&& (self.phase is AddingCupon || self.phase is Sending) ==> self.next < self.members@.len()
            && self.members@[self.next as int].id is Some
        &&& self.phase is AddingCupon ==> self.campaign is InterestsCupon
        &&& self.phase is Finished ==> self.next == self.members@.len()
        &&& self.phase is Ready ==> self.next == 0
    }

    /// A run that has not started.
    pub fn new(campaign: Campaign, members: Vec<Member>) -> (r: CampaignRun)
        requires
            members@.len() < usize::MAX,
        ensures
            r.wf(),
            r.campaign == campaign,
            r.members == members,
            r.phase is Ready,
    {
        CampaignRun { campaign, members, next: 0, tally: SendTally::new(), phase: CampaignPhase::Ready }
    }
}

/// After the members before `from` were counted (in `t`): the members
/// without id up to the next one with an id count as failures; then the
/// run asks for that member's coupon or e-mail, or finishes when no member
/// is left.
pub open spec fn continues_from(c: Campaign, ms: Seq<Member>, from: int, t: SendTally, r: CampaignRun, a: Option<CampaignAction>) -> bool {
    let j = first_with_id(ms, from);
    &&& r.next == j
    &&& r.tally.successful == t.successful
    &&& r.tally.failed == t.failed + (j - from)
    &&& if j == ms.len() {
        r.phase is Finished && (a matches Some(CampaignAction::Finish(o)) && answers(
            o,
            campaign_outcome(c, r.tally, ms.len()),
        ))
    } else if c is InterestsCupon {
        r.phase is AddingCupon && (a matches Some(CampaignAction::AddCupon(k)) && cupon_for(c, ms[j], k))
    } else {
        r.phase is Sending && (a matches Some(CampaignAction::Send(e)) && email_for(c, ms[j], e))
    }
}

fn skip_members_without_id(members: &Vec<Member>, from: usize, tally: SendTally) -> (r: (usize, SendTally))
    requires
        from <= members@.len() < usize::MAX,
        tally.successful + tally.failed == from,
    ensures
        r.0 == first_with_id(members@, from as int),
        r.1.successful == tally.successful,
        r.1.failed == tally.failed + (r.0 - from),
{
    proof {
        lemma_first_with_id(members@, from as int);
    }
    let mut j = from;
    let mut t = tally;
    while j < members.len() && members[j].id.is_none()
        invariant
            from <= j <= members@.len() < usize::MAX,
            first_with_id(members@, j as int) == first_with_id(members@, from as int),
            t.successful == tally.successful,
            t.failed == tally.failed + (j - from),
            t.successful + t.failed == j,
        decreases members@.len() - j,
    {
        t.record(false);
        j = j + 1;
    }
    (j, t)
}

fn cupon_of(campaign: &Campaign, member: &Member) -> (k: Cupon)
    requires
        campaign is InterestsCupon,
    ensures
        cupon_for(*campaign, *member, k),
{
    match campaign {
        Campaign::InterestsCupon { code, description, expires_at, .. } => Cupon {
            id: None,
            member_id: member.id,
            code: code.clone(),
            description: description.clone(),
            used: false,
            is_deleted: false,
            expires_at: *expires_at,
            created_at: None,
            updated_at: None,
        },
        _ => Cupon::default(),
    }
}

fn email_of(campaign: &Campaign, member: &Member) -> (e: EmailToSend)
    requires
        member.id is Some,
    ensures
        email_for(*campaign, *member, e),
{
    let member_id = match member.id {
        Some(x) => x,
        None => 0,
    };
    match campaign {
        Campaign::Birthday => EmailToSend {
            member_id,
            subject: String::from_str("Feliz Cumpleaños!"),
            body: get_birthday_styled(member),
            record_body: String::from_str("Email de Cumpleaños por defecto."),
        },
        Campaign::Interests { subject, original_body } => EmailToSend {
            member_id,
            subject: subject.clone(),
            body: get_normal_styled(original_body.clone()),
            record_body: original_body.clone(),
        },
        Campaign::InterestsCupon { subject, original_body, code, description, expires_at } => {
            let k = Cupon {
                id: None,
                member_id: member.id,
                code: code.clone(),
                description: description.clone(),
                used: false,
                is_deleted: false,
                expires_at: *expires_at,
                created_at: None,
                updated_at: None,
            };
            EmailToSend {
                member_id,
                subject: subject.clone(),
                body: get_cupon_styled(original_body.clone(), member, &k),
                record_body: original_body.clone(),
            }
        },
    }
}

fn finish_outcome(campaign: &Campaign, t: SendTally, total: usize) -> (o: Result<(), String>)
    ensures
        answers(o, campaign_outcome(*campaign, t, total as nat)),
{
    match campaign {
        Campaign::Birthday => birthday_send_outcome(t, total),
        _ => {
            if total == 0 {
                Err(String::from_str("No members found with the provided interests"))
            } else {
                interests_send_outcome(t, total)
            }
        },
    }
}

fn continue_from(campaign: Campaign, members: Vec<Member>, from: usize, tally: SendTally) -> (r: (CampaignRun, Option<CampaignAction>))
    requires
        from <= members@.len() < usize::MAX,
        tally.successful + tally.failed == from,
    ensures
        r.0.wf(),
        r.0.campaign == campaign,
        r.0.members == members,
        continues_from(campaign, members@, from as int, tally, r.0, r.1),
{
    proof {
        lemma_first_with_id(members@, from as int);
    }
    let (j, t) = skip_members_without_id(&members, from, tally);
    if j == members.len() {
        let o = finish_outcome(&campaign, t, members.len());
        (CampaignRun { campaign, members, next: j, tally: t, phase: CampaignPhase::Finished }, Some(CampaignAction::Finish(o)))
    } else if matches!(campaign, Campaign::InterestsCupon { .. }) {
        let k = cupon_of(&campaign, &members[j]);
        (CampaignRun { campaign, members, next: j, tally: t, phase: CampaignPhase::AddingCupon }, Some(CampaignAction::AddCupon(k)))
    } else {
        let e = email_of(&campaign, &members[j]);
        (CampaignRun { campaign, members, next: j, tally: t, phase: CampaignPhase::Sending }, Some(CampaignAction::Send(e)))
    }
}

/// One step of a mailing. Starting, or finishing a member, moves on: the
/// members without id count as failures, and the next member with an id
/// gets a coupon stored (coupon mailings) or an e-mail; once no member is
/// left the mailing finishes with its answer. A coupon that could not be
/// stored, or an e-mail that could not be sent, counts as a failure; a
/// stored coupon is followed by its e-mail, and a sent e-mail counts as a
/// success. An event the run does not wait for changes nothing.
pub fn campaign_step(run: CampaignRun, event: CampaignEvent) -> (r: (CampaignRun, Option<CampaignAction>))
    requires
        run.wf(),
    ensures
        r.0.wf(),
        r.0.campaign == run.campaign,
        r.0.members == run.members,
        (run.phase is Ready && event is Start) ==> continues_from(run.campaign, run.members@, 0, run.tally, r.0, r.1),
        (run.phase is AddingCupon && event matches CampaignEvent::CuponAdded(Err(_))) ==> continues_from(
            run.campaign,
            run.members@,
            run.next + 1,
            SendTally { failed: (run.tally.failed + 1) as usize, ..run.tally },
            r.0,
            r.1,
        ),
        (run.phase is AddingCupon && event matches CampaignEvent::CuponAdded(Ok(_))) ==> {
            &&& r.0.next == run.next && r.0.tally == run.tally && r.0.phase is Sending
            &&& r.1 matches Some(CampaignAction::Send(e)) && email_for(run.campaign, run.members@[run.next as int], e)
        },
        event matches CampaignEvent::Sent(res) ==> (run.phase is Sending ==> continues_from(
            run.campaign,
            run.members@,
            run.next + 1,
            if res is Ok {
                SendTally { successful: (run.tally.successful + 1) as usize, ..run.tally }
            } else {
                SendTally { failed: (run.tally.failed + 1) as usize, ..run.tally }
            },
            r.0,
            r.1,
        )),
        !((run.phase is Ready && event is Start) || (run.phase is AddingCupon && event is CuponAdded) || (
        run.phase is Sending && event is Sent)) ==> r.0 == run && r.1 is None,
{
    let CampaignRun { campaign, members, next, tally, phase } = run;
    match event {
        CampaignEvent::Start => {
            if phase == CampaignPhase::Ready {
                continue_from(campaign, members, 0, tally)
            } else {
                (CampaignRun { campaign, members, next, tally, phase }, None)
            }
        },
        CampaignEvent::CuponAdded(res) => {
            if phase == CampaignPhase::AddingCupon {
                match res {
                    Ok(()) => {
                        let e = email_of(&campaign, &members[next]);
                        (CampaignRun { campaign, members, next, tally, phase: CampaignPhase::Sending }, Some(CampaignAction::Send(e)))
                    },
                    Err(_) => {
                        let mut t = tally;
                        t.record(false);
                        continue_from(campaign, members, next + 1, t)
                    },
                }
            } else {
                (CampaignRun { campaign, members, next, tally, phase }, None)
            }
        },
        CampaignEvent::Sent(res) => {
            if phase == CampaignPhase::Sending {
                let mut t = tally;
                t.record(res.is_ok());
                continue_from(campaign, members, next + 1, t)
            } else {
                (CampaignRun { campaign, members, next, tally, phase }, None)
            }
        },
    }
}

/// A finished mailing counted every member once, as a success or a failure.
pub proof fn lemma_finished_run_counts_every_member(run: CampaignRun)
    requires
        run.wf(),
        run.phase is Finished,
    ensures
        run.tally.successful + run.tally.failed == run.members@.len(),
{
}

// ----- Mailing one member -----

/// The e-mail to one member: the message in the plain template, with the
/// message kept on record.
pub fn single_email(member_id: i32, subject: String, original_body: String) -> (e: EmailToSend)
    ensures
        e.member_id == member_id,
        e.subject == subject,
        e.body@ == normal_styled(original_body@),
        e.record_body == original_body,
{
    let body = get_normal_styled(original_body.clone());
    EmailToSend { member_id, subject, body, record_body: original_body }
}

/// The coupon for one member and its e-mail: a new, unused coupon with the
/// given code, description and expiry, and the coupon template addressed
/// to the member, with the message kept on record.
pub fn member_cupon_email(
    member: &Member,
    member_id: i32,
    code: String,
    description: String,
    expires_at: Option<Date>,
    subject: String,
    original_body: String,
) -> (r: (Cupon, EmailToSend))
    ensures
        r.0.id is None,
        r.0.member_id == Some(member_id),
        r.0.code == code,
        r.0.description == description,
        !r.0.used && !r.0.is_deleted,
        r.0.expires_at == expires_at,
        r.0.created_at is None && r.0.updated_at is None,
        r.1.member_id == member_id,
        r.1.subject == subject,
        r.1.body@ == cupon_parts_styled(original_body@, *member, code@, description@, expires_at),
        r.1.record_body == original_body,
{
    let k = Cupon::for_member(member_id, code, description, expires_at);
    let body = get_cupon_styled(original_body.clone(), member, &k);
    (k, EmailToSend { member_id, subject, body, record_body: original_body })
}

/// The answer of e-mailing one member: success, or `Failed to send single email`.
pub fn single_send_outcome(res: &Result<(), String>) -> (r: Result<(), String>)
    ensures
        r is Ok <==> res is Ok,
        r matches Err(m) ==> m@ == "Failed to send single email"@,
{
    match res {
        Ok(()) => Ok(()),
        Err(_) => Err(String::from_str("Failed to send single email")),
    }
}

/// In a coupon mailing, the coupon stored for a member carries the
/// campaign's code, description and expiry date, and the e-mail sent to
/// that member shows that very coupon: its body is the coupon template
/// filled with it (its code in the code slot, its description in the
/// description slot, its expiry date in the date slot).
pub proof fn lemma_cupon_email_shows_stored_cupon(c: Campaign, m: Member, k: Cupon, e: EmailToSend)
    requires
        c is InterestsCupon,
        cupon_for(c, m, k),
        email_for(c, m, e),
    ensures
        k.code@ == c->InterestsCupon_code@,
        k.description@ == c->InterestsCupon_description@,
        k.expires_at == c->InterestsCupon_expires_at,
        k.member_id == m.id,
        e.body@ == cupon_styled(c->InterestsCupon_original_body@, m, k),
        e.member_id == k.member_id->0,
{
}

} // verus!
