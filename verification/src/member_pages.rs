//! The member pages: the member list with its search, filter and export,
//! and a member's e-mails and coupons.
#![allow(non_snake_case)]
use vstd::prelude::*;
use crate::components::{EmailDraft, link_text, shown_id};
use crate::cupon::Cupon;
use crate::dates::{Date, date_of, format_optional_datetime_dmy, format_optional_dmy, optional_dmy_text};
use crate::email::Email;
use crate::filters::{filter_members, member_listed};
use crate::gender::gender_label;
use crate::inputs::{date_input, date_input_value};
use crate::interest::Interest;
use crate::member::{Member, MemberWithInterests};
use crate::pagination::{Pager, is_pager_for, page_count, page_slice, paged};
use crate::text::{i32_text, int_text, lowercase};
use crate::ui::{Listing, ToastMessage, ToastType, result_toast, result_toast_spec, toast};

verus! {

/// A row of the member list.
#[derive(Debug, Clone)]
pub struct MemberRow {
    pub id: String,
    pub full_name: String,
    pub email: String,
    pub birthdate: String,
    pub gender: String,
    pub country: String,
    pub link: String,
}

/// The row that shows a member.
pub open spec fn shows_member(row: MemberRow, m: Member) -> bool {
    &&& row.id@ == shown_id(m.id)
    &&& row.full_name@ == m.full_name()
    &&& row.email@ == m.email@
    &&& row.birthdate@ == optional_dmy_text(m.birthdate)
    &&& row.gender@ == gender_label(m.gender)
    &&& row.country@ == m.country@
    &&& row.link@ == link_text("/members/"@, m.id)
}

fn id_or_zero(id: Option<i32>) -> (r: i32)
    ensures
        r == match id {
            Some(x) => x,
            None => 0i32,
        },
{
    match id {
        Some(x) => x,
        None => 0,
    }
}

fn member_row(m: &Member) -> (r: MemberRow)
    ensures
        shows_member(r, *m),
{
    let id = id_or_zero(m.id);
    let mut link = String::from_str("/members/");
    let id_text = i32_text(id);
    link.append(id_text.as_str());
    MemberRow {
        id: i32_text(id),
        full_name: m.get_full_name(),
        email: m.email.clone(),
        birthdate: format_optional_dmy(&m.birthdate),
        gender: String::from_str(m.gender.label()),
        country: m.country.clone(),
        link,
    }
}

/// The member list: the members the search and filter keep (what the
/// export button exports), and what the table shows.
pub struct MembersListView {
    pub filtered: Option<Vec<MemberWithInterests>>,
    pub rows: Listing<MemberRow>,
}

/// What the member list shows: while loading a loading note; when the
/// members failed to load or none is kept, `No hay socios...`; otherwise a
/// row per member whose full name, e-mail, country or phone contains the lower-cased
/// search text and who has every ticked interest.
pub fn MembersList(data: Option<Result<Vec<MemberWithInterests>, String>>, search_query: &str, selected: &Vec<Interest>) -> (r: MembersListView)
    ensures
        data is None ==> r.filtered is None && r.rows is Loading,
        data matches Some(Err(_)) ==> r.filtered is None && r.rows is Empty,
        data matches Some(Ok(v)) ==> (r.filtered matches Some(f) && f@ == v@.filter(
            |m: MemberWithInterests| member_listed(m, lowercase(search_query@), selected@),
        ) && (f@.len() == 0 ==> r.rows is Empty) && (f@.len() > 0 ==> (r.rows matches Listing::Rows(rows)
            && rows@.len() == f@.len() && forall|k: int| 0 <= k < f@.len() ==> shows_member(#[trigger] rows@[k], f@[k].member)))),
{
    match data {
        None => MembersListView { filtered: None, rows: Listing::Loading },
        Some(Err(_)) => MembersListView { filtered: None, rows: Listing::Empty },
        Some(Ok(v)) => {
            let f = filter_members(v, search_query, selected);
            if f.len() == 0 {
                return MembersListView { filtered: Some(f), rows: Listing::Empty };
            }
            let mut rows: Vec<MemberRow> = Vec::new();
            let mut k: usize = 0;
            while k < f.len()
                invariant
                    k <= f@.len(),
                    rows@.len() == k,
                    forall|j: int| 0 <= j < k ==> shows_member(#[trigger] rows@[j], f@[j].member),
                decreases f@.len() - k,
            {
                rows.push(member_row(&f[k].member));
                k = k + 1;
            }
            MembersListView { filtered: Some(f), rows: Listing::Rows(rows) }
        },
    }
}

/// Pressing "export": the members kept by the list are exported; when the
/// list has not loaded, `No data to export`.
pub fn export_request(filtered: Option<Vec<MemberWithInterests>>) -> (r: Result<Vec<MemberWithInterests>, ToastMessage>)
    ensures
        filtered matches Some(f) ==> r == Ok::<Vec<MemberWithInterests>, ToastMessage>(f),
        filtered is None ==> (r matches Err(t) && t.visible && t.toast_type == ToastType::Error
            && t.message@ == "No data to export"@),
{
    match filtered {
        Some(f) => Ok(f),
        None => Err(toast(String::from_str("No data to export"), ToastType::Error)),
    }
}

/// The notification when the export failed: `Error Exporting <reason>`.
pub fn export_failed(reason: &str) -> (r: ToastMessage)
    ensures
        r.visible,
        r.toast_type == ToastType::Error,
        r.message@ == "Error Exporting "@ + reason@,
{
    let mut m = String::from_str("Error Exporting ");
    m.append(reason);
    toast(m, ToastType::Error)
}

// ----- A member's e-mails -----

/// A row of a member's e-mail list.
#[derive(Debug, Clone)]
pub struct MemberEmailRow {
    pub id: String,
    pub subject: String,
    pub body: String,
    pub sent_on: String,
}

/// An id as a list shows it: its digits, or nothing when there is none.
pub open spec fn optional_id_text(id: Option<i32>) -> Seq<char> {
    match id {
        Some(x) => int_text(x as int),
        None => Seq::empty(),
    }
}

pub fn optional_id(id: Option<i32>) -> (r: String)
    ensures
        r@ == optional_id_text(id),
{
    match id {
        Some(x) => i32_text(x),
        None => String::new(),
    }
}

/// The row that shows a member's e-mail.
pub open spec fn shows_member_email(row: MemberEmailRow, e: Email) -> bool {
    &&& row.id@ == optional_id_text(e.id)
    &&& row.subject@ == e.subject@
    &&& row.body@ == e.body@
    &&& row.sent_on@ == optional_dmy_text(date_of(e.created_at))
}

/// What happens on a member's e-mail card.
pub enum MemberEmailsEvent {
    SubjectInput(String),
    BodyInput(String),
    SendClicked,
    SendFinished(Result<(), String>),
}

/// The request to e-mail one member.
pub struct SingleEmailRequest {
    pub member_id: i32,
    pub subject: String,
    pub original_body: String,
}

/// The card's new draft and what the page must do.
pub struct MemberEmailsStep {
    pub draft: EmailDraft,
    pub send: Option<SingleEmailRequest>,
    pub toast: Option<ToastMessage>,
    pub refetch: bool,
    pub close_dialog: bool,
}

/// A member's e-mail card: while editing, typing edits the draft and
/// sending e-mails the member the draft; outside edit mode the form and
/// its button do nothing. The reply is reported; a success empties the
/// draft, fetches the e-mails again and closes the dialog.
pub fn MemberEmails(edit_mode: bool, member_id: i32, draft: EmailDraft, event: MemberEmailsEvent) -> (r: MemberEmailsStep)
    ensures
        !edit_mode && !(event is SendFinished) ==> r.draft == draft && r.send is None && r.toast is None
            && !r.refetch && !r.close_dialog,
        edit_mode ==> (event matches MemberEmailsEvent::SubjectInput(t) ==> r.draft.subject == t && r.draft.body == draft.body
            && r.send is None && r.toast is None && !r.refetch && !r.close_dialog),
        edit_mode ==> (event matches MemberEmailsEvent::BodyInput(t) ==> r.draft.body == t && r.draft.subject == draft.subject
            && r.send is None && r.toast is None && !r.refetch && !r.close_dialog),
        edit_mode && event is SendClicked ==> r.draft == draft && r.toast is None && !r.refetch && !r.close_dialog && (r.send matches Some(q)
            && q.member_id == member_id && q.subject == draft.subject && q.original_body == draft.body),
        event matches MemberEmailsEvent::SendFinished(res) ==> {
            &&& r.send is None
            &&& r.toast matches Some(t) && t.visible
                && (t.message@, t.toast_type) == result_toast_spec("Enviado"@, res)
            &&& r.refetch == res is Ok && r.close_dialog == res is Ok
            &&& res is Ok ==> r.draft.subject@ == Seq::<char>::empty() && r.draft.body@ == Seq::<char>::empty()
            &&& res is Err ==> r.draft == draft
        },
{
    if !edit_mode && !matches!(event, MemberEmailsEvent::SendFinished(_)) {
        return MemberEmailsStep { draft, send: None, toast: None, refetch: false, close_dialog: false };
    }
    match event {
        MemberEmailsEvent::SubjectInput(t) => MemberEmailsStep {
            draft: EmailDraft { subject: t, body: draft.body },
            send: None,
            toast: None,
            refetch: false,
            close_dialog: false,
        },
        MemberEmailsEvent::BodyInput(t) => MemberEmailsStep {
            draft: EmailDraft { subject: draft.subject, body: t },
            send: None,
            toast: None,
            refetch: false,
            close_dialog: false,
        },
        MemberEmailsEvent::SendClicked => {
            let q = SingleEmailRequest {
                member_id,
                subject: draft.subject.clone(),
                original_body: draft.body.clone(),
            };
            MemberEmailsStep { draft, send: Some(q), toast: None, refetch: false, close_dialog: false }
        },
        MemberEmailsEvent::SendFinished(res) => {
            let t = result_toast("Enviado", &res);
            match res {
                Ok(()) => MemberEmailsStep {
                    draft: EmailDraft::empty(),
                    send: None,
                    toast: Some(t),
                    refetch: true,
                    close_dialog: true,
                },
                Err(_) => MemberEmailsStep { draft, send: None, toast: Some(t), refetch: false, close_dialog: false },
            }
        },
    }
}

/// How many rows a page of a member's e-mails or coupons shows.
pub const MEMBER_ITEMS_PER_PAGE: usize = 5;

/// What a member's e-mail list shows on page `current_page`: nothing until
/// the e-mails arrive or when they failed; otherwise the rows of the page
/// (five a page) and, when the page is not empty, its page buttons.
pub fn member_emails_page(data: Option<Result<Vec<Email>, String>>, current_page: usize) -> (r: (Option<Vec<MemberEmailRow>>, Option<Pager>))
    requires
        current_page >= 1,
        (current_page - 1) * 5 <= usize::MAX,
    ensures
        !(data matches Some(Ok(_))) ==> r.0 is None && r.1 is None,
        data matches Some(Ok(v)) ==> (r.0 matches Some(rows) && rows@.len() == page_slice(v@, current_page as nat, 5).len()
            && forall|k: int| 0 <= k < rows@.len() ==> shows_member_email(#[trigger] rows@[k], page_slice(v@, current_page as nat, 5)[k])),
        data matches Some(Ok(v)) ==> (page_slice(v@, current_page as nat, 5).len() > 0 ==> (r.1 matches Some(p)
            && is_pager_for(p, current_page as int, page_count(v@.len(), 5) as int))),
        data matches Some(Ok(v)) ==> (page_slice(v@, current_page as nat, 5).len() == 0 ==> r.1 is None),
{
    match data {
        Some(Ok(v)) => {
            let (shown, p) = paged(v, current_page, MEMBER_ITEMS_PER_PAGE);
            let mut rows: Vec<MemberEmailRow> = Vec::new();
            let mut k: usize = 0;
            while k < shown.len()
                invariant
                    k <= shown@.len(),
                    rows@.len() == k,
                    forall|j: int| 0 <= j < k ==> shows_member_email(#[trigger] rows@[j], shown@[j]),
                decreases shown@.len() - k,
            {
                let e = &shown[k];
                rows.push(MemberEmailRow {
                    id: optional_id(e.id),
                    subject: e.subject.clone(),
                    body: e.body.clone(),
                    sent_on: format_optional_datetime_dmy(&e.created_at),
                });
                k = k + 1;
            }
            (Some(rows), p)
        },
        _ => (None, None),
    }
}

// ----- Coupons -----

/// The subject, message, description and expiry typed into a coupon dialog.
#[derive(Debug, Clone)]
pub struct CuponDraft {
    pub subject: String,
    pub body: String,
    pub description: String,
    pub expires_at: Option<Date>,
}

impl CuponDraft {
    /// An empty coupon draft.
    pub fn empty() -> (r: CuponDraft)
        ensures
            r.subject@ == Seq::<char>::empty(),
            r.body@ == Seq::<char>::empty(),
            r.description@ == Seq::<char>::empty(),
            r.expires_at is None,
    {
        CuponDraft { subject: String::new(), body: String::new(), description: String::new(), expires_at: None }
    }
}

/// What happens in a coupon dialog.
pub enum CuponDialogEvent {
    SubjectInput(String),
    BodyInput(String),
    DescriptionInput(String),
    /// The expiry date input was edited (its text, `%Y-%m-%d`).
    ExpiryInput(String),
    SendClicked,
    SendFinished(Result<(), String>),
}

/// A coupon to send: to one member, or (no member) to every member.
pub struct CuponEmailRequest {
    pub member_id: Option<i32>,
    pub cupon_description: String,
    pub cupon_expires_at: Option<Date>,
    pub subject: String,
    pub original_body: String,
}

/// The dialog's new draft and what the page must do.
pub struct CuponDialogStep {
    pub draft: CuponDraft,
    pub send: Option<CuponEmailRequest>,
    pub toast: Option<ToastMessage>,
    pub refetch: bool,
    pub close_dialog: bool,
}

/// The draft after typing into one of its fields (None for other events).
pub open spec fn edited_draft(draft: CuponDraft, event: CuponDialogEvent) -> Option<CuponDraft> {
    match event {
        CuponDialogEvent::SubjectInput(t) => Some(CuponDraft { subject: t, ..draft }),
        CuponDialogEvent::BodyInput(t) => Some(CuponDraft { body: t, ..draft }),
        CuponDialogEvent::DescriptionInput(t) => Some(CuponDraft { description: t, ..draft }),
        CuponDialogEvent::ExpiryInput(t) => Some(CuponDraft { expires_at: date_input_value(t@), ..draft }),
        _ => None,
    }
}

/// The request a coupon draft is sent as.
pub open spec fn request_of(member_id: Option<i32>, draft: CuponDraft, q: CuponEmailRequest) -> bool {
    &&& q.member_id == member_id
    &&& q.cupon_description == draft.description
    &&& q.cupon_expires_at == draft.expires_at
    &&& q.subject == draft.subject
    &&& q.original_body == draft.body
}

fn cupon_dialog(
    edit_mode: bool,
    member_id: Option<i32>,
    draft: CuponDraft,
    event: CuponDialogEvent,
    close_on_success: bool,
) -> (r: CuponDialogStep)
    ensures
        !edit_mode && !(event is SendFinished) ==> r.draft == draft && r.send is None && r.toast is None
            && !r.refetch && !r.close_dialog,
        edit_mode ==> (edited_draft(draft, event) matches Some(d) ==> r.draft == d && r.send is None && r.toast is None
            && !r.refetch && !r.close_dialog),
        edit_mode && event is SendClicked ==> r.draft == draft && r.toast is None && !r.refetch && !r.close_dialog
            && (r.send matches Some(q) && request_of(member_id, draft, q)),
        event matches CuponDialogEvent::SendFinished(res) ==> {
            &&& r.send is None
            &&& r.toast matches Some(t) && t.visible
                && (t.message@, t.toast_type) == result_toast_spec("Enviado"@, res)
            &&& r.refetch == (res is Ok && member_id is Some)
            &&& r.close_dialog == (res is Ok && close_on_success)
            &&& res is Ok ==> r.draft.subject@ == Seq::<char>::empty() && r.draft.body@ == Seq::<char>::empty()
                && r.draft.description@ == Seq::<char>::empty() && r.draft.expires_at is None
            &&& res is Err ==> r.draft == draft
        },
{
    if !edit_mode && !matches!(event, CuponDialogEvent::SendFinished(_)) {
        return CuponDialogStep { draft, send: None, toast: None, refetch: false, close_dialog: false };
    }
    let CuponDraft { subject, body, description, expires_at } = draft;
    match event {
        CuponDialogEvent::SubjectInput(t) => CuponDialogStep {
            draft: CuponDraft { subject: t, body, description, expires_at },
            send: None, toast: None, refetch: false, close_dialog: false,
        },
        CuponDialogEvent::BodyInput(t) => CuponDialogStep {
            draft: CuponDraft { subject, body: t, description, expires_at },
            send: None, toast: None, refetch: false, close_dialog: false,
        },
        CuponDialogEvent::DescriptionInput(t) => CuponDialogStep {
            draft: CuponDraft { subject, body, description: t, expires_at },
            send: None, toast: None, refetch: false, close_dialog: false,
        },
        CuponDialogEvent::ExpiryInput(t) => CuponDialogStep {
            draft: CuponDraft { subject, body, description, expires_at: date_input(t.as_str()) },
            send: None, toast: None, refetch: false, close_dialog: false,
        },
        CuponDialogEvent::SendClicked => {
            let q = CuponEmailRequest {
                member_id,
                cupon_description: description.clone(),
                cupon_expires_at: expires_at,
                subject: subject.clone(),
                original_body: body.clone(),
            };
            CuponDialogStep {
                draft: CuponDraft { subject, body, description, expires_at },
                send: Some(q), toast: None, refetch: false, close_dialog: false,
            }
        },
        CuponDialogEvent::SendFinished(res) => {
            let t = result_toast("Enviado", &res);
            match res {
                Ok(()) => CuponDialogStep {
                    draft: CuponDraft::empty(),
                    send: None,
                    toast: Some(t),
                    refetch: member_id.is_some(),
                    close_dialog: close_on_success,
                },
                Err(_) => CuponDialogStep {
                    draft: CuponDraft { subject, body, description, expires_at },
                    send: None, toast: Some(t), refetch: false, close_dialog: false,
                },
            }
        },
    }
}

/// A member's coupon card: while editing, typing edits the draft and
/// sending creates a coupon for the member and e-mails it; outside edit
/// mode the dialog and its button do nothing. The reply is reported; a
/// success empties the draft, fetches the coupons again and closes the dialog.
pub fn MemberCupons(edit_mode: bool, member_id: i32, draft: CuponDraft, event: CuponDialogEvent) -> (r: CuponDialogStep)
    ensures
        !edit_mode && !(event is SendFinished) ==> r.draft == draft && r.send is None && r.toast is None
            && !r.refetch && !r.close_dialog,
        edit_mode ==> (edited_draft(draft, event) matches Some(d) ==> r.draft == d && r.send is None && r.toast is None
            && !r.refetch && !r.close_dialog),
        edit_mode && event is SendClicked ==> r.draft == draft && r.toast is None && !r.refetch && !r.close_dialog
            && (r.send matches Some(q) && request_of(Some(member_id), draft, q)),
        event matches CuponDialogEvent::SendFinished(res) ==> {
            &&& r.send is None
            &&& r.toast matches Some(t) && t.visible
                && (t.message@, t.toast_type) == result_toast_spec("Enviado"@, res)
            &&& r.refetch == res is Ok && r.close_dialog == res is Ok
            &&& res is Ok ==> r.draft.subject@ == Seq::<char>::empty() && r.draft.body@ == Seq::<char>::empty()
                && r.draft.description@ == Seq::<char>::empty() && r.draft.expires_at is None
            &&& res is Err ==> r.draft == draft
        },
{
    cupon_dialog(edit_mode, Some(member_id), draft, event, true)
}

/// The "coupon to everybody" card: like a member's coupon card, but the
/// coupon goes to every member and a success only empties the draft.
pub fn AllCuponEmails(draft: CuponDraft, event: CuponDialogEvent) -> (r: CuponDialogStep)
    ensures
        edited_draft(draft, event) matches Some(d) ==> r.draft == d && r.send is None && r.toast is None
            && !r.refetch && !r.close_dialog,
        event is SendClicked ==> r.draft == draft && r.toast is None && !r.refetch && !r.close_dialog
            && (r.send matches Some(q) && request_of(None, draft, q)),
        event matches CuponDialogEvent::SendFinished(res) ==> {
            &&& r.send is None
            &&& r.toast matches Some(t) && t.visible
                && (t.message@, t.toast_type) == result_toast_spec("Enviado"@, res)
            &&& !r.refetch && !r.close_dialog
            &&& res is Ok ==> r.draft.subject@ == Seq::<char>::empty() && r.draft.body@ == Seq::<char>::empty()
                && r.draft.description@ == Seq::<char>::empty() && r.draft.expires_at is None
            &&& res is Err ==> r.draft == draft
        },
{
    cupon_dialog(true, None, draft, event, false)
}

/// A row of a member's coupon list.
#[derive(Debug, Clone)]
pub struct MemberCuponRow {
    pub id: String,
    pub code: String,
    pub description: String,
    pub sent_on: String,
    pub expires_on: String,
    pub used: String,
    pub link: String,
}

/// `Sí` for a used coupon, `No` otherwise.
pub open spec fn used_text(used: bool) -> Seq<char> {
    if used {
        "Sí"@
    } else {
        "No"@
    }
}

pub fn used_label(used: bool) -> (r: &'static str)
    ensures
        r@ == used_text(used),
{
    if used { "Sí" } else { "No" }
}

/// The row that shows one of a member's coupons; it links to the coupon check.
pub open spec fn shows_member_cupon(row: MemberCuponRow, c: Cupon) -> bool {
    &&& row.id@ == optional_id_text(c.id)
    &&& row.code@ == c.code@
    &&& row.description@ == c.description@
    &&& row.sent_on@ == optional_dmy_text(date_of(c.created_at))
    &&& row.expires_on@ == optional_dmy_text(c.expires_at)
    &&& row.used@ == used_text(c.used)
    &&& row.link@ == "/cupon-check?cupon="@ + c.code@
}

/// What a member's coupon list shows on page `current_page` (five a page),
/// with the page buttons when the page is not empty.
pub fn member_cupons_page(data: Option<Result<Vec<Cupon>, String>>, current_page: usize) -> (r: (Option<Vec<MemberCuponRow>>, Option<Pager>))
    requires
        current_page >= 1,
        (current_page - 1) * 5 <= usize::MAX,
    ensures
        !(data matches Some(Ok(_))) ==> r.0 is None && r.1 is None,
        data matches Some(Ok(v)) ==> (r.0 matches Some(rows) && rows@.len() == page_slice(v@, current_page as nat, 5).len()
            && forall|k: int| 0 <= k < rows@.len() ==> shows_member_cupon(#[trigger] rows@[k], page_slice(v@, current_page as nat, 5)[k])),
        data matches Some(Ok(v)) ==> (page_slice(v@, current_page as nat, 5).len() > 0 ==> (r.1 matches Some(p)
            && is_pager_for(p, current_page as int, page_count(v@.len(), 5) as int))),
        data matches Some(Ok(v)) ==> (page_slice(v@, current_page as nat, 5).len() == 0 ==> r.1 is None),
{
    match data {
        Some(Ok(v)) => {
            let (shown, p) = paged(v, current_page, MEMBER_ITEMS_PER_PAGE);
            let mut rows: Vec<MemberCuponRow> = Vec::new();
            let mut k: usize = 0;
            while k < shown.len()
                invariant
                    k <= shown@.len(),
                    rows@.len() == k,
                    forall|j: int| 0 <= j < k ==> shows_member_cupon(#[trigger] rows@[j], shown@[j]),
                decreases shown@.len() - k,
            {
                let c = &shown[k];
                let mut link = String::from_str("/cupon-check?cupon=");
                link.append(c.code.as_str());
                rows.push(MemberCuponRow {
                    id: optional_id(c.id),
                    code: c.code.clone(),
                    description: c.description.clone(),
                    sent_on: format_optional_datetime_dmy(&c.created_at),
                    expires_on: format_optional_dmy(&c.expires_at),
                    used: String::from_str(used_label(c.used)),
                    link,
                });
                k = k + 1;
            }
            (Some(rows), p)
        },
        _ => (None, None),
    }
}

} // verus!
