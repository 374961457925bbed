//! The coupon check page: look coupons up by code, narrow them by member,
//! page through them and mark them used or unused.
#![allow(non_snake_case)]
use vstd::prelude::*;
use crate::cupon::{Cupon, CuponWithMember};
use crate::dates::{date_of, dmy_text, format_optional_datetime_dmy, format_optional_dmy, optional_dmy_text};
use crate::filters::{cupon_listed, filter_cupons};
use crate::member_pages::{optional_id, optional_id_text, used_label, used_text};
use crate::pagination::{Pager, is_pager_for, page_count, page_slice, paged};
use crate::text::lowercase;
use crate::ui::{ToastMessage, ToastType, error_text, toast};

verus! {

/// How many coupons a page of the coupon check shows.
pub const CUPONS_PER_PAGE: usize = 20;

/// What the coupon check page holds: the coupons found, the code typed, the
/// member search typed and the page shown.
#[derive(Debug, Clone)]
pub struct CuponCheckState {
    pub cupons: Vec<CuponWithMember>,
    pub cupon_input: String,
    pub search_input: String,
    pub current_page: usize,
}

/// What happens on the coupon check page.
pub enum CuponCheckEvent {
    /// The page's `cupon` query parameter was read (None when missing or unreadable).
    QueryLoaded(Option<String>),
    /// The code box was edited.
    CuponInput(String),
    /// Enter in the code box, or the search button.
    SearchClicked,
    /// The answer to a search by code.
    SearchFinished(Result<Vec<CuponWithMember>, String>),
    /// The member search box was edited.
    SearchInput(String),
    /// The "change used" button of a coupon with this id and used flag.
    SwapClicked(Option<i32>, bool),
    /// The answer to a change of the used flag.
    SwapFinished(Result<(), String>),
    /// A page button.
    PageClicked(usize),
}

/// A request the page sends to the server.
#[derive(Debug, Clone)]
pub enum CuponCheckAction {
    /// Look up the coupons with this code.
    SearchByCode(String),
    /// Flip the used flag of a coupon that has the given current value.
    SwapUsed { cupon_id: i32, current_value: bool },
}

/// The page's new state, the request to send and the notification to show.
pub struct CuponCheckStep {
    pub state: CuponCheckState,
    pub action: Option<CuponCheckAction>,
    pub toast: Option<ToastMessage>,
}

/// The text of an optional string parameter, empty when it is missing.
pub open spec fn text_or_empty(t: Option<String>) -> Seq<char> {
    match t {
        Some(s) => s@,
        None => Seq::empty(),
    }
}

/// The notification when a code finds nothing.
pub open spec fn not_found_text() -> Seq<char> {
    "No existe o esta caducado!"@
}

/// `t` is a visible notification of the given kind with the given text.
pub open spec fn shows_toast(t: Option<ToastMessage>, text: Seq<char>, kind: ToastType) -> bool {
    t matches Some(m) && m.visible && m.toast_type == kind && m.message@ == text
}

fn error_toast(reason: &String) -> (r: ToastMessage)
    ensures
        r.visible,
        r.toast_type == ToastType::Error,
        r.message@ == error_text(reason@),
{
    let mut m = String::from_str("Error: ");
    m.append(reason.as_str());
    toast(m, ToastType::Error)
}

/// The coupon check page's answer to an event: typing and clicking change
/// the state and send requests, and the server's answers are reported.
/// A search sends the typed code, or clears the coupons when no code is
/// typed; a search that finds nothing leaves the coupons and says
/// `No existe o esta caducado!`; a successful change of the used flag says
/// `Cambiado`, clears the coupons and searches the typed code again; a
/// failure says `Error: <reason>`; editing the member search goes back to
/// the first page.
pub fn CuponCheckPage(s: CuponCheckState, event: CuponCheckEvent) -> (r: CuponCheckStep)
    ensures
        event matches CuponCheckEvent::QueryLoaded(q) ==> r.state.cupon_input@ == text_or_empty(q)
            && r.state.cupons == s.cupons && r.state.search_input == s.search_input
            && r.state.current_page == s.current_page && r.action is None && r.toast is None,
        event matches CuponCheckEvent::CuponInput(t) ==> r.state == (CuponCheckState { cupon_input: t, ..s })
            && r.action is None && r.toast is None,
        event is SearchClicked ==> r.toast is None && (if s.cupon_input@.len() > 0 {
            r.state == s && (r.action matches Some(CuponCheckAction::SearchByCode(c)) && c == s.cupon_input)
        } else {
            r.state.cupons@.len() == 0 && r.state.cupon_input == s.cupon_input
                && r.state.search_input == s.search_input && r.state.current_page == s.current_page
                && r.action is None
        }),
        event matches CuponCheckEvent::SearchFinished(res) ==> r.action is None && match res {
            Ok(v) => if v@.len() == 0 {
                r.state == s && shows_toast(r.toast, not_found_text(), ToastType::Error)
            } else {
                r.state == (CuponCheckState { cupons: v, ..s }) && r.toast is None
            },
            Err(e) => r.state == s && shows_toast(r.toast, error_text(e@), ToastType::Error),
        },
        event matches CuponCheckEvent::SearchInput(t) ==> r.state == (CuponCheckState {
            search_input: t,
            current_page: 1,
            ..s
        }) && r.action is None && r.toast is None,
        event matches CuponCheckEvent::SwapClicked(id, used) ==> r.state == s && r.toast is None && match id {
            Some(x) => r.action matches Some(CuponCheckAction::SwapUsed { cupon_id, current_value })
                && cupon_id == x && current_value == used,
            None => r.action is None,
        },
        event matches CuponCheckEvent::SwapFinished(res) ==> match res {
            Ok(()) => shows_toast(r.toast, "Cambiado"@, ToastType::Success) && r.state.cupons@.len() == 0
                && r.state.cupon_input == s.cupon_input && r.state.search_input == s.search_input
                && r.state.current_page == s.current_page
                && (r.action matches Some(CuponCheckAction::SearchByCode(c)) && c == s.cupon_input),
            Err(e) => r.state == s && r.action is None && shows_toast(r.toast, error_text(e@), ToastType::Error),
        },
        event matches CuponCheckEvent::PageClicked(p) ==> r.state == (CuponCheckState { current_page: p, ..s })
            && r.action is None && r.toast is None,
{
    let CuponCheckState { cupons, cupon_input, search_input, current_page } = s;
    match event {
        CuponCheckEvent::QueryLoaded(q) => {
            let code = match q {
                Some(t) => t,
                None => String::new(),
            };
            CuponCheckStep {
                state: CuponCheckState { cupons, cupon_input: code, search_input, current_page },
                action: None,
                toast: None,
            }
        },
        CuponCheckEvent::CuponInput(t) => CuponCheckStep {
            state: CuponCheckState { cupons, cupon_input: t, search_input, current_page },
            action: None,
            toast: None,
        },
        CuponCheckEvent::SearchClicked => {
            if !cupon_input.as_str().is_empty() {
                let code = cupon_input.clone();
                CuponCheckStep {
                    state: CuponCheckState { cupons, cupon_input, search_input, current_page },
                    action: Some(CuponCheckAction::SearchByCode(code)),
                    toast: None,
                }
            } else {
                CuponCheckStep {
                    state: CuponCheckState { cupons: Vec::new(), cupon_input, search_input, current_page },
                    action: None,
                    toast: None,
                }
            }
        },
        CuponCheckEvent::SearchFinished(res) => match res {
            Ok(v) => {
                if v.len() == 0 {
                    CuponCheckStep {
                        state: CuponCheckState { cupons, cupon_input, search_input, current_page },
                        action: None,
                        toast: Some(toast(String::from_str("No existe o esta caducado!"), ToastType::Error)),
                    }
                } else {
                    CuponCheckStep {
                        state: CuponCheckState { cupons: v, cupon_input, search_input, current_page },
                        action: None,
                        toast: None,
                    }
                }
            },
            Err(e) => {
                let t = error_toast(&e);
                CuponCheckStep {
                    state: CuponCheckState { cupons, cupon_input, search_input, current_page },
                    action: None,
                    toast: Some(t),
                }
            },
        },
        CuponCheckEvent::SearchInput(t) => CuponCheckStep {
            state: CuponCheckState { cupons, cupon_input, search_input: t, current_page: 1 },
            action: None,
            toast: None,
        },
        CuponCheckEvent::SwapClicked(id, used) => {
            let action = match id {
                Some(x) => Some(CuponCheckAction::SwapUsed { cupon_id: x, current_value: used }),
                None => None,
            };
            CuponCheckStep {
                state: CuponCheckState { cupons, cupon_input, search_input, current_page },
                action,
                toast: None,
            }
        },
        CuponCheckEvent::SwapFinished(res) => match res {
            Ok(()) => {
                let code = cupon_input.clone();
                CuponCheckStep {
                    state: CuponCheckState { cupons: Vec::new(), cupon_input, search_input, current_page },
                    action: Some(CuponCheckAction::SearchByCode(code)),
                    toast: Some(toast(String::from_str("Cambiado"), ToastType::Success)),
                }
            },
            Err(e) => {
                let t = error_toast(&e);
                CuponCheckStep {
                    state: CuponCheckState { cupons, cupon_input, search_input, current_page },
                    action: None,
                    toast: Some(t),
                }
            },
        },
        CuponCheckEvent::PageClicked(p) => CuponCheckStep {
            state: CuponCheckState { cupons, cupon_input, search_input, current_page: p },
            action: None,
            toast: None,
        },
    }
}

/// A row of the coupon check table, with what its "change used" button sends.
#[derive(Debug, Clone)]
pub struct CuponCheckRow {
    pub id: String,
    pub code: String,
    pub owner: String,
    pub description: String,
    pub sent_on: String,
    pub expires_on: String,
    pub used: String,
    pub cupon_id: Option<i32>,
    pub is_used: bool,
}

/// The row that shows a coupon and its member.
pub open spec fn shows_cupon_check(row: CuponCheckRow, c: CuponWithMember) -> bool {
    &&& row.id@ == optional_id_text(c.cupon.id)
    &&& row.code@ == c.cupon.code@
    &&& row.owner@ == c.member.full_name()
    &&& row.description@ == c.cupon.description@
    &&& row.sent_on@ == optional_dmy_text(date_of(c.cupon.created_at))
    &&& row.expires_on@ == optional_dmy_text(c.cupon.expires_at)
    &&& row.used@ == used_text(c.cupon.used)
    &&& row.cupon_id == c.cupon.id
    &&& row.is_used == c.cupon.used
}

/// The coupons the table lists for a lower-cased member search.
pub open spec fn cupons_listed(cupons: Seq<CuponWithMember>, query: Seq<char>) -> Seq<CuponWithMember> {
    cupons.filter(|c: CuponWithMember| cupon_listed(c, query))
}

fn cupon_check_row(c: &CuponWithMember) -> (r: CuponCheckRow)
    ensures
        shows_cupon_check(r, *c),
{
    let k: &Cupon = &c.cupon;
    CuponCheckRow {
        id: optional_id(k.id),
        code: k.code.clone(),
        owner: c.member.get_full_name(),
        description: k.description.clone(),
        sent_on: format_optional_datetime_dmy(&k.created_at),
        expires_on: format_optional_dmy(&k.expires_at),
        used: String::from_str(used_label(k.used)),
        cupon_id: k.id,
        is_used: k.used,
    }
}

/// What the coupon table shows on page `current_page`: nothing while no
/// coupon was found; otherwise the rows of the page (twenty a page) among
/// the coupons whose member matches the lower-cased search, and the page
/// buttons when that page is not empty.
pub fn cupon_check_page(cupons: Vec<CuponWithMember>, search: &str, current_page: usize) -> (r: (
    Option<Vec<CuponCheckRow>>,
    Option<Pager>,
))
    requires
        current_page >= 1,
        (current_page - 1) * 20 <= usize::MAX,
    ensures
        cupons@.len() == 0 ==> r.0 is None && r.1 is None,
        cupons@.len() > 0 ==> {
            let shown = page_slice(cupons_listed(cupons@, lowercase(search@)), current_page as nat, 20);
            &&& r.0 matches Some(rows) && rows@.len() == shown.len()
                && forall|k: int| 0 <= k < rows@.len() ==> shows_cupon_check(#[trigger] rows@[k], shown[k])
            &&& shown.len() > 0 ==> (r.1 matches Some(p) && is_pager_for(
                p,
                current_page as int,
                page_count(cupons_listed(cupons@, lowercase(search@)).len(), 20) as int,
            ))
            &&& shown.len() == 0 ==> r.1 is None
        },
{
    if cupons.len() == 0 {
        return (None, None);
    }
    let listed = filter_cupons(cupons, search);
    let (shown, p) = paged(listed, current_page, CUPONS_PER_PAGE);
    let mut rows: Vec<CuponCheckRow> = Vec::new();
    let mut k: usize = 0;
    while k < shown.len()
        invariant
            k <= shown@.len(),
            rows@.len() == k,
            forall|j: int| 0 <= j < k ==> shows_cupon_check(#[trigger] rows@[j], shown@[j]),
        decreases shown@.len() - k,
    {
        rows.push(cupon_check_row(&shown[k]));
        k = k + 1;
    }
    (Some(rows), p)
}

/// The coupon table's dates: the expiry column depends only on the
/// coupon's expiry date and the sent-on column only on its creation date
/// (two coupons with the same expiry date show the same expiry, whatever
/// their creation dates, and the other way round); a coupon with an expiry
/// date shows it as `%d-%m-%Y`, one without shows `N/A`.
pub proof fn lemma_cupon_dates_in_their_columns(r1: CuponCheckRow, c1: CuponWithMember, r2: CuponCheckRow, c2: CuponWithMember)
    requires
        shows_cupon_check(r1, c1),
        shows_cupon_check(r2, c2),
    ensures
        c1.cupon.expires_at == c2.cupon.expires_at ==> r1.expires_on@ == r2.expires_on@,
        date_of(c1.cupon.created_at) == date_of(c2.cupon.created_at) ==> r1.sent_on@ == r2.sent_on@,
        c1.cupon.expires_at matches Some(d) ==> r1.expires_on@ == dmy_text(d),
        c1.cupon.expires_at is None ==> r1.expires_on@ == seq!['N', '/', 'A'],
        c1.cupon.created_at matches Some(t) ==> r1.sent_on@ == dmy_text(t.date),
        c1.cupon.created_at is None ==> r1.sent_on@ == seq!['N', '/', 'A'],
{
}

} // verus!
