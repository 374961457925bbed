//! The decisions of the dashboard widgets: what each shows for the data it
//! fetched, and how each answers the user's clicks and the server's replies.
#![allow(non_snake_case)]
use vstd::prelude::*;
use crate::dates::{date_of, format_optional_datetime_dmy, optional_dmy_text};
use crate::email::TodayEmail;
use crate::filters::{SelectableInterest, selected_interests};
use crate::interest::Interest;
use crate::member::Member;
use crate::pagination::{Pager, is_pager_for, page_count, page_slice, paged};
use crate::text::{i32_text, int_text};
use crate::ui::{Listing, ToastMessage, ToastType, error_text, result_toast, result_toast_spec, toast};
use crate::user::User;

verus! {

/// The subject and body typed into an e-mail dialog.
#[derive(Debug, Clone)]
pub struct EmailDraft {
    pub subject: String,
    pub body: String,
}

impl EmailDraft {
    /// An empty draft.
    pub fn empty() -> (r: EmailDraft)
        ensures
            r.subject@ == Seq::<char>::empty(),
            r.body@ == Seq::<char>::empty(),
    {
        EmailDraft { subject: String::new(), body: String::new() }
    }
}

/// `prefix` followed by the decimal text of `id`, or of 0 when there is none.
pub open spec fn link_text(prefix: Seq<char>, id: Option<i32>) -> Seq<char> {
    prefix + int_text(match id {
        Some(x) => x as int,
        None => 0,
    })
}

fn id_or_zero(id: Option<i32>) -> (r: i32)
    ensures
        r == match id {
            Some(x) => x,
            None => 0i32,
        },
{
    match id {
        Some(x) => x,
        None => 0,
    }
}

fn link(prefix: &str, id: i32) -> (r: String)
    ensures
        r@ == prefix@ + int_text(id as int),
{
    let mut s = String::from_str(prefix);
    let t = i32_text(id);
    s.append(t.as_str());
    s
}

// ----- "Write to everybody" card -----

/// What happens in the "write to everybody" dialog.
pub enum AllEmailsEvent {
    SubjectInput(String),
    BodyInput(String),
    SendClicked,
    SendFinished(Result<(), String>),
}

/// The dialog's new draft, and what the page must do.
pub struct AllEmailsStep {
    pub draft: EmailDraft,
    /// The subject and body to send to every member.
    pub send: Option<EmailDraft>,
    pub toast: Option<ToastMessage>,
    pub close_dialog: bool,
}

/// The "write to everybody" card: typing edits the draft, sending sends the
/// draft as it is, and the reply is reported; a success also empties the
/// draft and closes the dialog.
pub fn AllEmails(draft: EmailDraft, event: AllEmailsEvent) -> (r: AllEmailsStep)
    ensures
        event matches AllEmailsEvent::SubjectInput(t) ==> r.draft.subject == t && r.draft.body == draft.body
            && r.send is None && r.toast is None && !r.close_dialog,
        event matches AllEmailsEvent::BodyInput(t) ==> r.draft.body == t && r.draft.subject == draft.subject
            && r.send is None && r.toast is None && !r.close_dialog,
        event is SendClicked ==> r.draft == draft && r.send == Some(draft) && r.toast is None
            && !r.close_dialog,
        event matches AllEmailsEvent::SendFinished(res) ==> {
            &&& r.send is None
            &&& r.toast matches Some(t) && t.visible
                && (t.message@, t.toast_type) == result_toast_spec("Enviado"@, res)
            &&& r.close_dialog == res is Ok
            &&& res is Ok ==> r.draft.subject@ == Seq::<char>::empty() && r.draft.body@ == Seq::<char>::empty()
            &&& res is Err ==> r.draft == draft
        },
{
    match event {
        AllEmailsEvent::SubjectInput(t) => AllEmailsStep {
            draft: EmailDraft { subject: t, body: draft.body },
            send: None,
            toast: None,
            close_dialog: false,
        },
        AllEmailsEvent::BodyInput(t) => AllEmailsStep {
            draft: EmailDraft { subject: draft.subject, body: t },
            send: None,
            toast: None,
            close_dialog: false,
        },
        AllEmailsEvent::SendClicked => {
            let send = EmailDraft { subject: draft.subject.clone(), body: draft.body.clone() };
            AllEmailsStep { draft, send: Some(send), toast: None, close_dialog: false }
        },
        AllEmailsEvent::SendFinished(res) => {
            let t = result_toast("Enviado", &res);
            match res {
                Ok(()) => AllEmailsStep {
                    draft: EmailDraft::empty(),
                    send: None,
                    toast: Some(t),
                    close_dialog: true,
                },
                Err(_) => AllEmailsStep { draft, send: None, toast: Some(t), close_dialog: false },
            }
        },
    }
}

// ----- "Write by interest" card -----

/// The two pages of the "write by interest" dialog.
#[derive(Debug, Clone, Copy, PartialEq, Eq, Structural)]
pub enum DialogPage {
    InterestSelection,
    MailComposing,
}

/// The dialog's state: its page, the interests with their check boxes, and
/// the draft.
pub struct CategoryEmailsState {
    pub page: DialogPage,
    pub interests: Vec<SelectableInterest>,
    pub draft: EmailDraft,
}

/// What happens in the "write by interest" dialog.
pub enum CategoryEmailsEvent {
    InterestsLoaded(Vec<Interest>),
    Toggle(usize, bool),
    NextClicked,
    BackClicked,
    SubjectInput(String),
    BodyInput(String),
    SendClicked,
    SendFinished(Result<(), String>),
}

/// The request to e-mail every member with one of the interests.
pub struct InterestsEmailRequest {
    pub interests: Vec<Interest>,
    pub subject: String,
    pub original_body: String,
}

/// The dialog's new state and what the page must do.
pub struct CategoryEmailsStep {
    pub state: CategoryEmailsState,
    pub send: Option<InterestsEmailRequest>,
    pub toast: Option<ToastMessage>,
}

/// Whether some interest's box is ticked.
pub open spec fn any_selected(items: Seq<SelectableInterest>) -> bool {
    exists|i: int| 0 <= i < items.len() && #[trigger] items[i].selected
}

fn unselected_all(interests: Vec<Interest>) -> (r: Vec<SelectableInterest>)
    ensures
        r@.len() == interests@.len(),
        forall|i: int| 0 <= i < r@.len() ==> #[trigger] r@[i].interest == interests@[i] && !r@[i].selected,
{
    let mut out: Vec<SelectableInterest> = Vec::new();
    let ghost all = interests@;
    for it in iter: interests.into_iter()
        invariant
            iter.seq() == all,
            out@.len() == iter.index(),
            forall|i: int| 0 <= i < out@.len() ==> #[trigger] out@[i].interest == all[i] && !out@[i].selected,
    {
        out.push(SelectableInterest { interest: it, selected: false });
    }
    out
}

fn some_selected(items: &Vec<SelectableInterest>) -> (r: bool)
    ensures
        r == any_selected(items@),
{
    let mut i: usize = 0;
    while i < items.len()
        invariant
            i <= items@.len(),
            forall|k: int| 0 <= k < i ==> !(#[trigger] items@[k].selected),
        decreases items@.len() - i,
    {
        if items[i].selected {
            return true;
        }
        i = i + 1;
    }
    false
}

/// The "write by interest" card. Loading the interests shows them all
/// unticked; a box can be ticked or unticked; "next" needs a ticked
/// interest (else `Selecciona al menos un interés`); "back" returns to the
/// selection; sending asks to e-mail the members with any ticked interest;
/// the reply is reported, and a success returns to the selection page with
/// an empty draft.
pub fn CategoryEmails(state: CategoryEmailsState, event: CategoryEmailsEvent) -> (r: CategoryEmailsStep)
    ensures
        event matches CategoryEmailsEvent::InterestsLoaded(list) ==> {
            &&& r.state.interests@.len() == list@.len()
            &&& forall|i: int| 0 <= i < list@.len() ==> #[trigger] r.state.interests@[i].interest == list@[i]
                && !r.state.interests@[i].selected
            &&& r.state.page == state.page && r.state.draft == state.draft
            &&& r.send is None && r.toast is None
        },
        event matches CategoryEmailsEvent::Toggle(i, on) ==> {
            &&& i < state.interests@.len() ==> r.state.interests@ == state.interests@.update(
                i as int,
                SelectableInterest { interest: state.interests@[i as int].interest, selected: on },
            )
            &&& i >= state.interests@.len() ==> r.state.interests@ == state.interests@
            &&& r.state.page == state.page && r.state.draft == state.draft
            &&& r.send is None && r.toast is None
        },
        event is NextClicked ==> {
            &&& r.state.interests@ == state.interests@ && r.state.draft == state.draft
            &&& r.send is None
            &&& any_selected(state.interests@) ==> r.state.page == DialogPage::MailComposing && r.toast is None
            &&& !any_selected(state.interests@) ==> (r.state.page == state.page && (r.toast matches Some(t)
                && t.visible && t.toast_type == ToastType::Error && t.message@ == "Selecciona al menos un interés"@))
        },
        event is BackClicked ==> r.state.page == DialogPage::InterestSelection && r.state.interests@
            == state.interests@ && r.state.draft == state.draft && r.send is None && r.toast is None,
        event matches CategoryEmailsEvent::SubjectInput(t) ==> r.state.draft.subject == t && r.state.draft.body
            == state.draft.body && r.state.page == state.page && r.state.interests@ == state.interests@
            && r.send is None && r.toast is None,
        event matches CategoryEmailsEvent::BodyInput(t) ==> r.state.draft.body == t && r.state.draft.subject
            == state.draft.subject && r.state.page == state.page && r.state.interests@ == state.interests@
            && r.send is None && r.toast is None,
        event is SendClicked ==> {
            &&& r.state.page == state.page && r.state.interests@ == state.interests@ && r.state.draft == state.draft
            &&& r.toast is None
            &&& r.send matches Some(req) && req.subject == state.draft.subject && req.original_body
                == state.draft.body && req.interests@ == state.interests@.filter(
                |s: SelectableInterest| s.selected,
            ).map_values(|s: SelectableInterest| s.interest)
        },
        event matches CategoryEmailsEvent::SendFinished(res) ==> {
            &&& r.send is None
            &&& r.state.interests@ == state.interests@
            &&& r.toast matches Some(t) && t.visible
                && (t.message@, t.toast_type) == result_toast_spec("Enviado"@, res)
            &&& res is Ok ==> r.state.page == DialogPage::InterestSelection && r.state.draft.subject@
                == Seq::<char>::empty() && r.state.draft.body@ == Seq::<char>::empty()
            &&& res is Err ==> r.state.page == state.page && r.state.draft == state.draft
        },
{
    let CategoryEmailsState { page, interests, draft } = state;
    match event {
        CategoryEmailsEvent::InterestsLoaded(list) => CategoryEmailsStep {
            state: CategoryEmailsState { page, interests: unselected_all(list), draft },
            send: None,
            toast: None,
        },
        CategoryEmailsEvent::Toggle(i, on) => {
            let mut interests = interests;
            if i < interests.len() {
                let item = SelectableInterest { interest: interests[i].interest.copy_of(), selected: on };
                interests.set(i, item);
            }
            CategoryEmailsStep { state: CategoryEmailsState { page, interests, draft }, send: None, toast: None }
        },
        CategoryEmailsEvent::NextClicked => {
            if some_selected(&interests) {
                CategoryEmailsStep {
                    state: CategoryEmailsState { page: DialogPage::MailComposing, interests, draft },
                    send: None,
                    toast: None,
                }
            } else {
                let t = toast(String::from_str("Selecciona al menos un interés"), ToastType::Error);
                CategoryEmailsStep { state: CategoryEmailsState { page, interests, draft }, send: None, toast: Some(t) }
            }
        },
        CategoryEmailsEvent::BackClicked => CategoryEmailsStep {
            state: CategoryEmailsState { page: DialogPage::InterestSelection, interests, draft },
            send: None,
            toast: None,
        },
        CategoryEmailsEvent::SubjectInput(t) => CategoryEmailsStep {
            state: CategoryEmailsState { page, interests, draft: EmailDraft { subject: t, body: draft.body } },
            send: None,
            toast: None,
        },
        CategoryEmailsEvent::BodyInput(t) => CategoryEmailsStep {
            state: CategoryEmailsState { page, interests, draft: EmailDraft { subject: draft.subject, body: t } },
            send: None,
            toast: None,
        },
        CategoryEmailsEvent::SendClicked => {
            let chosen = selected_interests(&interests);
            let req = InterestsEmailRequest {
                interests: chosen,
                subject: draft.subject.clone(),
                original_body: draft.body.clone(),
            };
            CategoryEmailsStep { state: CategoryEmailsState { page, interests, draft }, send: Some(req), toast: None }
        },
        CategoryEmailsEvent::SendFinished(res) => {
            let t = result_toast("Enviado", &res);
            match res {
                Ok(()) => CategoryEmailsStep {
                    state: CategoryEmailsState {
                        page: DialogPage::InterestSelection,
                        interests,
                        draft: EmailDraft::empty(),
                    },
                    send: None,
                    toast: Some(t),
                },
                Err(_) => CategoryEmailsStep {
                    state: CategoryEmailsState { page, interests, draft },
                    send: None,
                    toast: Some(t),
                },
            }
        },
    }
}

// ----- Mail server test card -----

/// The notification for the answer of the mail server test:
/// `Connection is Ok!`, or the reason it failed.
pub fn TestEmailConfig(result: &Result<(), String>) -> (r: ToastMessage)
    ensures
        r.visible,
        result is Ok ==> r.toast_type == ToastType::Success && r.message@ == "Connection is Ok!"@,
        result matches Err(e) ==> r.toast_type == ToastType::Error && r.message@ == e@,
{
    match result {
        Ok(()) => toast(String::from_str("Connection is Ok!"), ToastType::Success),
        Err(e) => toast(e.clone(), ToastType::Error),
    }
}

// ----- Lists -----

/// A row of the interest list.
#[derive(Debug, Clone)]
pub struct InterestRow {
    pub id: String,
    pub name: String,
    pub description: String,
    pub link: String,
}

/// A row of the user list.
#[derive(Debug, Clone)]
pub struct UserRow {
    pub id: String,
    pub username: String,
    pub created: String,
    pub updated: String,
    pub link: String,
}

/// A row of the list of e-mails sent today.
#[derive(Debug, Clone)]
pub struct TodayEmailRow {
    pub id: String,
    pub recipient: String,
    pub subject: String,
    pub body: String,
    pub sent_on: String,
    pub link: String,
}

/// The id a list shows: the id, or 0 when there is none.
pub open spec fn shown_id(id: Option<i32>) -> Seq<char> {
    int_text(match id {
        Some(x) => x as int,
        None => 0,
    })
}

/// The row that shows an interest.
pub open spec fn shows_interest(row: InterestRow, i: Interest) -> bool {
    &&& row.id@ == shown_id(i.id)
    &&& row.name@ == i.name@
    &&& row.description@ == i.description@
    &&& row.link@ == link_text("/interests/"@, i.id)
}

/// The row that shows a user.
pub open spec fn shows_user(row: UserRow, u: User) -> bool {
    &&& row.id@ == shown_id(u.id)
    &&& row.username@ == u.username@
    &&& row.created@ == optional_dmy_text(date_of(u.created_at))
    &&& row.updated@ == optional_dmy_text(date_of(u.updated_at))
    &&& row.link@ == link_text("/users/"@, u.id)
}

/// The row that shows an e-mail sent today.
pub open spec fn shows_today_email(row: TodayEmailRow, e: TodayEmail) -> bool {
    &&& row.id@ == int_text(e.id as int)
    &&& row.recipient@ == e.member_full_name@
    &&& row.subject@ == e.subject@
    &&& row.body@ == e.body@
    &&& row.sent_on@ == optional_dmy_text(date_of(e.created_at))
    &&& row.link@ == "/members/"@ + int_text(e.member_id as int)
}

fn interest_row(i: &Interest) -> (r: InterestRow)
    ensures
        shows_interest(r, *i),
{
    let id = id_or_zero(i.id);
    InterestRow {
        id: i32_text(id),
        name: i.name.clone(),
        description: i.description.clone(),
        link: link("/interests/", id),
    }
}

fn user_row(u: &User) -> (r: UserRow)
    ensures
        shows_user(r, *u),
{
    let id = id_or_zero(u.id);
    UserRow {
        id: i32_text(id),
        username: u.username.clone(),
        created: format_optional_datetime_dmy(&u.created_at),
        updated: format_optional_datetime_dmy(&u.updated_at),
        link: link("/users/", id),
    }
}

fn today_email_row(e: &TodayEmail) -> (r: TodayEmailRow)
    ensures
        shows_today_email(r, *e),
{
    TodayEmailRow {
        id: i32_text(e.id),
        recipient: e.member_full_name.clone(),
        subject: e.subject.clone(),
        body: e.body.clone(),
        sent_on: format_optional_datetime_dmy(&e.created_at),
        link: link("/members/", e.member_id),
    }
}

/// What the interest list shows: a loading note until the interests
/// arrive; `No hay intereses...` when there are none or they failed to
/// load; otherwise a row per interest with its id, name, description and a
/// link to it.
pub fn InterestsList(data: &Option<Result<Vec<Interest>, String>>) -> (r: Listing<InterestRow>)
    ensures
        data is None ==> r is Loading,
        data matches Some(Err(_)) ==> r is Empty,
        data matches Some(Ok(v)) ==> (v@.len() == 0 ==> r is Empty),
        data matches Some(Ok(v)) ==> (v@.len() > 0 ==> (r matches Listing::Rows(rows) && rows@.len() == v@.len()
            && forall|k: int| 0 <= k < v@.len() ==> shows_interest(#[trigger] rows@[k], v@[k]))),
{
    match data {
        None => Listing::Loading,
        Some(Err(_)) => Listing::Empty,
        Some(Ok(v)) => {
            if v.len() == 0 {
                return Listing::Empty;
            }
            let mut rows: Vec<InterestRow> = Vec::new();
            let mut k: usize = 0;
            while k < v.len()
                invariant
                    k <= v@.len(),
                    rows@.len() == k,
                    forall|j: int| 0 <= j < k ==> shows_interest(#[trigger] rows@[j], v@[j]),
                decreases v@.len() - k,
            {
                rows.push(interest_row(&v[k]));
                k = k + 1;
            }
            Listing::Rows(rows)
        },
    }
}

/// What the user list shows: a loading note until the users arrive;
/// `No hay usuarios...` when there are none or they failed to load;
/// otherwise a row per user with its id, name, creation and update dates
/// (`N/A` when missing) and a link to it.
pub fn UsersList(data: &Option<Result<Vec<User>, String>>) -> (r: Listing<UserRow>)
    ensures
        data is None ==> r is Loading,
        data matches Some(Err(_)) ==> r is Empty,
        data matches Some(Ok(v)) ==> (v@.len() == 0 ==> r is Empty),
        data matches Some(Ok(v)) ==> (v@.len() > 0 ==> (r matches Listing::Rows(rows) && rows@.len() == v@.len()
            && forall|k: int| 0 <= k < v@.len() ==> shows_user(#[trigger] rows@[k], v@[k]))),
{
    match data {
        None => Listing::Loading,
        Some(Err(_)) => Listing::Empty,
        Some(Ok(v)) => {
            if v.len() == 0 {
                return Listing::Empty;
            }
            let mut rows: Vec<UserRow> = Vec::new();
            let mut k: usize = 0;
            while k < v.len()
                invariant
                    k <= v@.len(),
                    rows@.len() == k,
                    forall|j: int| 0 <= j < k ==> shows_user(#[trigger] rows@[j], v@[j]),
                decreases v@.len() - k,
            {
                rows.push(user_row(&v[k]));
                k = k + 1;
            }
            Listing::Rows(rows)
        },
    }
}

/// What the "members with a birthday today" card shows: a loading note,
/// `No hay socios...` when there are none or they failed to load, or the
/// members.
pub fn TodayMembers(data: Option<Result<Vec<Member>, String>>) -> (r: Listing<Member>)
    ensures
        data is None ==> r is Loading,
        data matches Some(Err(_)) ==> r is Empty,
        data matches Some(Ok(v)) ==> (v@.len() == 0 ==> r is Empty),
        data matches Some(Ok(v)) ==> (v@.len() > 0 ==> (r matches Listing::Rows(rows) && rows@ == v@)),
{
    match data {
        None => Listing::Loading,
        Some(Err(_)) => Listing::Empty,
        Some(Ok(v)) => {
            if v.len() == 0 {
                Listing::Empty
            } else {
                Listing::Rows(v)
            }
        },
    }
}

/// How many e-mails a page of the "sent today" list shows.
pub const TODAY_EMAILS_PER_PAGE: usize = 8;

/// The "sent today" list: the rows of the current page, and the page
/// buttons when the page shows any row.
pub struct TodayEmailsView {
    pub rows: Option<Vec<TodayEmailRow>>,
    pub pager: Option<Pager>,
}

/// What the "sent today" list shows on page `current_page`: nothing until
/// the e-mails arrive or when they failed; otherwise the rows of that page
/// (eight a page), and, when the page is not empty, its page buttons.
pub fn TodayEmails(data: Option<Result<Vec<TodayEmail>, String>>, current_page: usize) -> (r: TodayEmailsView)
    requires
        current_page >= 1,
        (current_page - 1) * 8 <= usize::MAX,
    ensures
        !(data matches Some(Ok(_))) ==> r.rows is None && r.pager is None,
        data matches Some(Ok(v)) ==> (r.rows matches Some(rows) && rows@.len() == page_slice(v@, current_page as nat, 8).len()
            && forall|k: int| 0 <= k < rows@.len() ==> shows_today_email(#[trigger] rows@[k], page_slice(v@, current_page as nat, 8)[k])),
        data matches Some(Ok(v)) ==> (page_slice(v@, current_page as nat, 8).len() > 0 ==> (r.pager matches Some(p)
            && is_pager_for(p, current_page as int, page_count(v@.len(), 8) as int))),
        data matches Some(Ok(v)) ==> (page_slice(v@, current_page as nat, 8).len() == 0 ==> r.pager is None),
{
    match data {
        Some(Ok(v)) => {
            let (shown, p) = paged(v, current_page, TODAY_EMAILS_PER_PAGE);
            let mut rows: Vec<TodayEmailRow> = Vec::new();
            let mut k: usize = 0;
            while k < shown.len()
                invariant
                    k <= shown@.len(),
                    rows@.len() == k,
                    forall|j: int| 0 <= j < k ==> shows_today_email(#[trigger] rows@[j], shown@[j]),
                decreases shown@.len() - k,
            {
                rows.push(today_email_row(&shown[k]));
                k = k + 1;
            }
            TodayEmailsView { rows: Some(rows), pager: p }
        },
        _ => TodayEmailsView { rows: None, pager: None },
    }
}

} // verus!
