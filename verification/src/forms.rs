//! The edit pages: what their forms submit, and how they answer the
//! server's replies; the log-in page; and which page a route shows.
#![allow(non_snake_case)]
use vstd::prelude::*;
use crate::interest::Interest;
use crate::gender::Gender;
use crate::member::Member;
use crate::ui::{ToastMessage, ToastType, result_toast, result_toast_spec, toast};
use crate::user::{UpsertOperation, UserUpsertModel};

verus! {

/// What a page does once the server answered an action.
pub struct ActionReply {
    pub toast: ToastMessage,
    /// The path to go to.
    pub navigate_to: Option<String>,
    /// Fetch the page's data again.
    pub refetch: bool,
    /// Close the dialog the action came from.
    pub close_dialog: bool,
    /// Reload the whole page.
    pub reload: bool,
}

/// The message of a form that lacks required fields.
pub open spec fn missing_fields_text() -> Seq<char> {
    "Faltan campos obligatorios"@
}

fn missing_fields() -> (r: ToastMessage)
    ensures
        r.visible,
        r.toast_type == ToastType::Error,
        r.message@ == missing_fields_text(),
{
    toast(String::from_str("Faltan campos obligatorios"), ToastType::Error)
}

/// The reply to an action whose success moves to another page: the
/// success text and the move, or `Error: <reason>` and staying.
pub fn reply_then_navigate(success: &str, result: &Result<(), String>, path: &str) -> (r: ActionReply)
    ensures
        (r.toast.message@, r.toast.toast_type) == result_toast_spec(success@, *result),
        r.toast.visible,
        result is Ok ==> (r.navigate_to matches Some(p) && p@ == path@),
        result is Err ==> r.navigate_to is None,
        !r.refetch && !r.close_dialog && !r.reload,
{
    let t = result_toast(success, result);
    let navigate_to = match result {
        Ok(()) => Some(String::from_str(path)),
        Err(_) => None,
    };
    ActionReply { toast: t, navigate_to, refetch: false, close_dialog: false, reload: false }
}

/// The reply to an action whose success refreshes the page's data: the
/// success text, a refetch, and (when asked) closing the dialog.
pub fn reply_then_refetch(success: &str, result: &Result<(), String>, close_on_success: bool) -> (r: ActionReply)
    ensures
        (r.toast.message@, r.toast.toast_type) == result_toast_spec(success@, *result),
        r.toast.visible,
        r.refetch == result is Ok,
        r.close_dialog == (result is Ok && close_on_success),
        r.navigate_to is None && !r.reload,
{
    let t = result_toast(success, result);
    let ok = result.is_ok();
    ActionReply { toast: t, navigate_to: None, refetch: ok, close_dialog: ok && close_on_success, reload: false }
}

/// Submitting the member form: outside edit mode the form and its button
/// do nothing (None); while editing, a member with name and first surname
/// is sent to be saved, otherwise `Faltan campos obligatorios`. The reply
/// to the save is `saved_reply(RecordKind::Member, ..)`.
pub fn UpsertMember(edit_mode: bool, model: Member) -> (r: Option<Result<Member, ToastMessage>>)
    ensures
        !edit_mode ==> r is None,
        edit_mode && model.valid() ==> r == Some(Ok::<Member, ToastMessage>(model)),
        edit_mode && !model.valid() ==> (r matches Some(Err(t)) && t.visible && t.toast_type == ToastType::Error
            && t.message@ == missing_fields_text()),
{
    if !edit_mode {
        None
    } else if model.is_valid() {
        Some(Ok(model))
    } else {
        Some(Err(missing_fields()))
    }
}

/// Submitting the interest form: an interest with a name is sent to be
/// saved; otherwise `Faltan campos obligatorios`.
pub fn UpsertInterest(model: Interest) -> (r: Result<Interest, ToastMessage>)
    ensures
        model.valid() ==> r == Ok::<Interest, ToastMessage>(model),
        !model.valid() ==> (r matches Err(t) && t.visible && t.toast_type == ToastType::Error
            && t.message@ == missing_fields_text()),
{
    if model.is_valid() {
        Ok(model)
    } else {
        Err(missing_fields())
    }
}

/// The operation a user form is for: adding when the user has no id yet,
/// renaming otherwise.
pub open spec fn user_form_operation(id: Option<i32>) -> UpsertOperation {
    if id is None {
        UpsertOperation::Add
    } else {
        UpsertOperation::Edit
    }
}

/// Submitting the user form: a form complete for adding (no id) or
/// renaming (an id) is sent to be saved; otherwise `Faltan campos
/// obligatorios`. The reply to the save is `saved_reply(RecordKind::User, ..)`.
pub fn UpsertUser(model: UserUpsertModel) -> (r: Result<UserUpsertModel, ToastMessage>)
    ensures
        model.valid_for(user_form_operation(model.id)) ==> r == Ok::<UserUpsertModel, ToastMessage>(model),
        !model.valid_for(user_form_operation(model.id)) ==> (r matches Err(t) && t.visible && t.toast_type
            == ToastType::Error && t.message@ == missing_fields_text()),
{
    let operation = if model.id.is_none() {
        UpsertOperation::Add
    } else {
        UpsertOperation::Edit
    };
    if model.is_valid(operation) {
        Ok(model)
    } else {
        Err(missing_fields())
    }
}

/// Submitting the change-password dialog: a form complete for a password
/// change is sent; otherwise `Faltan campos obligatorios`.
pub fn change_password_submit(model: UserUpsertModel) -> (r: Result<UserUpsertModel, ToastMessage>)
    ensures
        model.valid_for(UpsertOperation::PasswordChange) ==> r == Ok::<UserUpsertModel, ToastMessage>(model),
        !model.valid_for(UpsertOperation::PasswordChange) ==> (r matches Err(t) && t.visible && t.toast_type
            == ToastType::Error && t.message@ == missing_fields_text()),
{
    if model.is_valid(UpsertOperation::PasswordChange) {
        Ok(model)
    } else {
        Err(missing_fields())
    }
}

/// The reply to a password change: on success the dialog closes, the user
/// is fetched again and `Cambiada Correctamente!` shows.
pub fn password_changed_reply(result: &Result<(), String>) -> (r: ActionReply)
    ensures
        (r.toast.message@, r.toast.toast_type) == result_toast_spec("Cambiada Correctamente!"@, *result),
        r.refetch == result is Ok,
        r.close_dialog == result is Ok,
        r.navigate_to is None && !r.reload,
{
    reply_then_refetch("Cambiada Correctamente!", result, true)
}

/// How an edit page starts: with an id it fetches that record and shows it
/// read-only; without one it shows an empty form ready for editing.
pub fn edit_page_start(id: Option<i32>) -> (r: (Option<i32>, bool))
    ensures
        r.0 == id,
        r.1 == id is None,
{
    (id, id.is_none())
}

/// The reply to logging in: on success `Inicio de Sesión Válido` and the
/// page reloads; otherwise `Error: <reason>`.
pub fn LoginPage(result: &Result<(), String>) -> (r: ActionReply)
    ensures
        (r.toast.message@, r.toast.toast_type) == result_toast_spec("Inicio de Sesión Válido"@, *result),
        r.toast.visible,
        r.reload == result is Ok,
        r.navigate_to is None && !r.refetch && !r.close_dialog,
{
    let t = result_toast("Inicio de Sesión Válido", result);
    ActionReply { toast: t, navigate_to: None, refetch: false, close_dialog: false, reload: result.is_ok() }
}

/// The interest preselected in the "add interest" dialog: the first
/// interest's id (0 when it has none) once interests are loaded, else the
/// current choice.
pub fn default_interest_choice(all: &Vec<Interest>, current: i32) -> (r: i32)
    ensures
        all@.len() == 0 ==> r == current,
        all@.len() > 0 ==> r == match all@[0].id {
            Some(x) => x,
            None => 0i32,
        },
{
    if all.len() > 0 {
        match all[0].id {
            Some(x) => x,
            None => 0,
        }
    } else {
        current
    }
}

/// The pages of the application.
#[derive(Debug, Clone, Copy, PartialEq, Eq, Structural)]
pub enum Route {
    Home,
    Members,
    MemberDetail,
    Interests,
    InterestDetail,
    Management,
    Users,
    UserDetail,
    CuponCheck,
    Login,
    NotFound,
}

/// What a route shows: its page, or a move to another path.
#[derive(Debug, Clone, Copy, PartialEq, Eq, Structural)]
pub enum Screen {
    Page(Route),
    RedirectToLogin,
    RedirectToHome,
}

/// Whether a route needs a logged-in user.
pub open spec fn is_protected(route: Route) -> bool {
    route != Route::Login && route != Route::NotFound
}

/// The application's routing: protected pages show to a logged-in user and
/// send anybody else to the log-in page; the log-in page sends a logged-in
/// user home; the not-found page always shows. The navigation bar shows
/// when a user is logged in.
pub fn App(route: Route, logged_in: bool) -> (r: (Screen, bool))
    ensures
        r.1 == logged_in,
        is_protected(route) && logged_in ==> r.0 == Screen::Page(route),
        is_protected(route) && !logged_in ==> r.0 == Screen::RedirectToLogin,
        route == Route::Login && !logged_in ==> r.0 == Screen::Page(Route::Login),
        route == Route::Login && logged_in ==> r.0 == Screen::RedirectToHome,
        route == Route::NotFound ==> r.0 == Screen::Page(Route::NotFound),
{
    let screen = match route {
        Route::NotFound => Screen::Page(Route::NotFound),
        Route::Login => if logged_in {
            Screen::RedirectToHome
        } else {
            Screen::Page(Route::Login)
        },
        _ => if logged_in {
            Screen::Page(route)
        } else {
            Screen::RedirectToLogin
        },
    };
    (screen, logged_in)
}

// ----- Edit pages -----

/// The model an edit page shows: the default one when there is no id
/// (`None`: nothing fetched) or the fetch failed, else the fetched record.
pub fn member_page_model(fetched: Option<Result<Member, String>>) -> (r: Member)
    ensures
        fetched matches Some(Ok(m)) ==> r == m,
        !(fetched matches Some(Ok(_))) ==> r.id is None && r.name@ == Seq::<char>::empty()
            && r.surname@ == Seq::<char>::empty() && r.second_surname@ == Seq::<char>::empty()
            && r.email@ == Seq::<char>::empty() && r.birthdate is None && r.phone@ == Seq::<char>::empty()
            && r.country_id == 0 && r.country@ == Seq::<char>::empty() && r.gender == Gender::Male
            && r.notes@ == Seq::<char>::empty() && r.created_at is None && r.updated_at is None,
{
    match fetched {
        Some(Ok(m)) => m,
        _ => Member::default(),
    }
}

/// The user form an edit page shows: the default (empty) one when there is
/// no id or the fetch failed, else the fetched form.
pub fn user_page_model(fetched: Option<Result<UserUpsertModel, String>>) -> (r: UserUpsertModel)
    ensures
        fetched matches Some(Ok(u)) ==> r == u,
        !(fetched matches Some(Ok(_))) ==> r.id is None && r.username@ == Seq::<char>::empty()
            && r.old_password@ == Seq::<char>::empty() && r.new_password@ == Seq::<char>::empty()
            && r.new_password_repeat@ == Seq::<char>::empty(),
{
    match fetched {
        Some(Ok(u)) => u,
        _ => UserUpsertModel::default(),
    }
}

/// The buttons and cards of a member's page.
pub struct MemberPageControls {
    /// The "Editar" button.
    pub edit_enabled: bool,
    /// The "Eliminar" button.
    pub delete_enabled: bool,
    /// The interests, e-mails and coupons cards.
    pub cards_shown: bool,
}

/// A member's page: editing, deleting and the member's cards need a stored
/// member (one with an id).
pub fn UpsertMemberPage(model: &Member) -> (r: MemberPageControls)
    ensures
        r.edit_enabled == model.id is Some,
        r.delete_enabled == model.id is Some,
        r.cards_shown == model.id is Some,
{
    let stored = model.id.is_some();
    MemberPageControls { edit_enabled: stored, delete_enabled: stored, cards_shown: stored }
}

/// The buttons of a user's page.
pub struct UserPageControls {
    /// The "Editar" button.
    pub edit_enabled: bool,
    /// The "Cambiar Contraseña" button.
    pub change_password_enabled: bool,
    /// The "Eliminar" button.
    pub delete_enabled: bool,
}

/// A user's page: editing, changing the password and deleting need a
/// stored user (one with an id).
pub fn UpsertUserPage(model: &UserUpsertModel) -> (r: UserPageControls)
    ensures
        r.edit_enabled == model.id is Some,
        r.change_password_enabled == model.id is Some,
        r.delete_enabled == model.id is Some,
{
    let stored = model.id.is_some();
    UserPageControls { edit_enabled: stored, change_password_enabled: stored, delete_enabled: stored }
}

/// The record a confirmed "Eliminar" deletes: the shown record's id, and
/// nothing when it has none.
pub fn delete_request(id: Option<i32>) -> (r: Option<i32>)
    ensures
        r == id,
{
    id
}

/// Whether the user form shows the password fields: only for a new user.
pub fn password_fields_shown(model: &UserUpsertModel) -> (r: bool)
    ensures
        r == model.id is None,
{
    model.id.is_none()
}

// ----- Replies of the edit forms and pages -----

/// The kinds of record the edit pages save and delete.
#[derive(Debug, Clone, Copy, PartialEq, Eq, Structural)]
pub enum RecordKind {
    Member,
    Interest,
    User,
}

/// The list page of a kind of record.
pub open spec fn list_path(kind: RecordKind) -> Seq<char> {
    match kind {
        RecordKind::Member => "/members"@,
        RecordKind::Interest => "/interests"@,
        RecordKind::User => "/users"@,
    }
}

fn list_page(kind: RecordKind) -> (r: &'static str)
    ensures
        r@ == list_path(kind),
{
    match kind {
        RecordKind::Member => "/members",
        RecordKind::Interest => "/interests",
        RecordKind::User => "/users",
    }
}

/// The reply to saving a member, an interest or a user from its form:
/// `Guardado` and the move to the list of that kind, or `Error: <reason>`
/// and staying.
pub fn saved_reply(kind: RecordKind, result: &Result<(), String>) -> (r: ActionReply)
    ensures
        (r.toast.message@, r.toast.toast_type) == result_toast_spec("Guardado"@, *result),
        r.toast.visible,
        result is Ok ==> (r.navigate_to matches Some(p) && p@ == list_path(kind)),
        result is Err ==> r.navigate_to is None,
        !r.refetch && !r.close_dialog && !r.reload,
{
    reply_then_navigate("Guardado", result, list_page(kind))
}

/// The reply to deleting a member, an interest or a user from its page:
/// `Eliminado` and the move to the list of that kind, or `Error: <reason>`
/// and staying.
pub fn deleted_reply(kind: RecordKind, result: &Result<(), String>) -> (r: ActionReply)
    ensures
        (r.toast.message@, r.toast.toast_type) == result_toast_spec("Eliminado"@, *result),
        r.toast.visible,
        result is Ok ==> (r.navigate_to matches Some(p) && p@ == list_path(kind)),
        result is Err ==> r.navigate_to is None,
        !r.refetch && !r.close_dialog && !r.reload,
{
    reply_then_navigate("Eliminado", result, list_page(kind))
}

} // verus!
