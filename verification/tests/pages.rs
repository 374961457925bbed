use socios_peix::components::{
    AllEmails, AllEmailsEvent, CategoryEmails, CategoryEmailsEvent, CategoryEmailsState, DialogPage, EmailDraft,
    TestEmailConfig,
};
use socios_peix::cupon::{Cupon, CuponWithMember};
use socios_peix::cupon_check::{
    cupon_check_page, CuponCheckAction, CuponCheckEvent, CuponCheckPage, CuponCheckState,
};
use socios_peix::dates::Date;
use socios_peix::forms::{
    deleted_reply, saved_reply, RecordKind,
    delete_request, member_page_model, password_fields_shown, user_page_model, UpsertMemberPage, UpsertUserPage,
    change_password_submit, default_interest_choice, edit_page_start, password_changed_reply, reply_then_navigate,
    reply_then_refetch, App, LoginPage, Route, Screen, UpsertInterest, UpsertMember, UpsertUser,
};
use socios_peix::interest::Interest;
use socios_peix::member::Member;
use socios_peix::member_interests::{MemberInterestChange, MemberInterestsEvent, MemberInterestsUpsert};
use socios_peix::member_pages::{
    AllCuponEmails, CuponDialogEvent, CuponDraft, MemberCupons, MemberEmails, MemberEmailsEvent,
};
use socios_peix::ui::{
    get_stored_theme, initial_dark_mode, is_logged_in, result_toast, theme_name, toast, ToastType,
};
use socios_peix::user::{User, UserUpsertModel};

fn draft(subject: &str, body: &str) -> EmailDraft {
    EmailDraft { subject: subject.to_string(), body: body.to_string() }
}

fn interest(id: i32, name: &str) -> Interest {
    Interest { id: Some(id), name: name.to_string(), ..Default::default() }
}

#[test]
fn notifications() {
    let t = toast("Hola".to_string(), ToastType::Success);
    assert!(t.visible);
    assert_eq!(t.message, "Hola");
    let ok = result_toast("Guardado", &Ok(()));
    assert_eq!(ok.message, "Guardado");
    assert_eq!(ok.toast_type, ToastType::Success);
    let err = result_toast("Guardado", &Err("falló".to_string()));
    assert_eq!(err.message, "Error: falló");
    assert_eq!(err.toast_type, ToastType::Error);
}

#[test]
fn theme_preferences() {
    assert_eq!(get_stored_theme(&Some("dark".to_string())), Some(true));
    assert_eq!(get_stored_theme(&Some("light".to_string())), Some(false));
    assert_eq!(get_stored_theme(&Some("blue".to_string())), None);
    assert_eq!(get_stored_theme(&None), None);
    assert_eq!(theme_name(true), "dark");
    assert_eq!(theme_name(false), "light");
    assert!(!initial_dark_mode(Some(false), Some(true), true));
    assert!(initial_dark_mode(None, Some(true), false));
    assert!(initial_dark_mode(None, None, true));
}

#[test]
fn login_gate_and_routes() {
    let u = User { id: Some(1), username: "a".to_string(), password: String::new(), created_at: None, updated_at: None };
    assert!(is_logged_in(&Some(Ok(Some(u)))));
    assert!(!is_logged_in(&Some(Ok(None))));
    assert!(!is_logged_in(&Some(Err("e".to_string()))));
    assert!(!is_logged_in(&None));
    assert_eq!(App(Route::Members, true), (Screen::Page(Route::Members), true));
    assert_eq!(App(Route::Members, false), (Screen::RedirectToLogin, false));
    assert_eq!(App(Route::Login, true), (Screen::RedirectToHome, true));
    assert_eq!(App(Route::Login, false), (Screen::Page(Route::Login), false));
    assert_eq!(App(Route::NotFound, false), (Screen::Page(Route::NotFound), false));
    assert_eq!(App(Route::CuponCheck, false).0, Screen::RedirectToLogin);
}

#[test]
fn form_submissions_need_required_fields() {
    let m = Member { name: "Ana".to_string(), surname: "P".to_string(), ..Default::default() };
    assert!(UpsertMember(false, m.clone()).is_none());
    assert!(UpsertMember(true, m).unwrap().is_ok());
    let t = UpsertMember(true, Member::default()).unwrap().unwrap_err();
    assert_eq!(t.message, "Faltan campos obligatorios");
    assert!(UpsertInterest(interest(1, "Golf")).is_ok());
    assert!(UpsertInterest(Interest::default()).is_err());
    let add = UserUpsertModel {
        id: None,
        username: "u".to_string(),
        old_password: String::new(),
        new_password: "p".to_string(),
        new_password_repeat: "p".to_string(),
    };
    assert!(UpsertUser(add.clone()).is_ok());
    let rename_only = UserUpsertModel { id: Some(3), new_password: String::new(), new_password_repeat: String::new(), ..add.clone() };
    assert!(UpsertUser(rename_only.clone()).is_ok());
    let add_without_password = UserUpsertModel { id: None, ..rename_only };
    assert!(UpsertUser(add_without_password).is_err());
    assert!(change_password_submit(add.clone()).is_err());
    assert!(change_password_submit(UserUpsertModel { old_password: "o".to_string(), ..add }).is_ok());
}

#[test]
fn action_replies() {
    let r = reply_then_navigate("Eliminado", &Ok(()), "/users");
    assert_eq!(r.navigate_to.as_deref(), Some("/users"));
    assert_eq!(r.toast.message, "Eliminado");
    let r = reply_then_navigate("Eliminado", &Err("x".to_string()), "/users");
    assert!(r.navigate_to.is_none());
    assert_eq!(r.toast.message, "Error: x");
    let r = reply_then_refetch("Guardado", &Ok(()), true);
    assert!(r.refetch && r.close_dialog);
    let r = reply_then_refetch("Guardado", &Err("x".to_string()), true);
    assert!(!r.refetch && !r.close_dialog);
    let r = password_changed_reply(&Ok(()));
    assert_eq!(r.toast.message, "Cambiada Correctamente!");
    assert!(r.close_dialog && r.refetch);
    let r = LoginPage(&Ok(()));
    assert_eq!(r.toast.message, "Inicio de Sesión Válido");
    assert!(r.reload);
    let r = LoginPage(&Err("Login failed: x".to_string()));
    assert_eq!(r.toast.message, "Error: Login failed: x");
    assert!(!r.reload);
    assert_eq!(edit_page_start(Some(4)), (Some(4), false));
    assert_eq!(edit_page_start(None), (None, true));
}

#[test]
fn interest_choice_defaults_to_the_first() {
    assert_eq!(default_interest_choice(&vec![interest(7, "A"), interest(8, "B")], 0), 7);
    assert_eq!(default_interest_choice(&vec![], 5), 5);
    assert_eq!(default_interest_choice(&vec![Interest::default()], 5), 0);
}

#[test]
fn member_interests_card() {
    let s = MemberInterestsUpsert(true, 10, 0, MemberInterestsEvent::InterestsLoaded(vec![interest(3, "Golf")]));
    assert_eq!(s.chosen_interest_id, 3);
    let s = MemberInterestsUpsert(true, 10, 3, MemberInterestsEvent::InterestChosen("4".to_string()));
    assert_eq!(s.chosen_interest_id, 4);
    let s = MemberInterestsUpsert(true, 10, 3, MemberInterestsEvent::InterestChosen("x4".to_string()));
    assert_eq!(s.chosen_interest_id, 3);
    let s = MemberInterestsUpsert(true, 10, 4, MemberInterestsEvent::AddClicked);
    assert_eq!(s.change, Some(MemberInterestChange::Add { member_id: 10, interest_id: 4 }));
    let s = MemberInterestsUpsert(false, 10, 4, MemberInterestsEvent::AddClicked);
    assert_eq!(s.change, None);
    let s = MemberInterestsUpsert(true, 10, 4, MemberInterestsEvent::RemoveClicked(None));
    assert_eq!(s.change, Some(MemberInterestChange::Remove { member_id: 10, interest_id: 0 }));
    let s = MemberInterestsUpsert(true, 10, 4, MemberInterestsEvent::AddFinished(Ok(())));
    let reply = s.reply.unwrap();
    assert_eq!(reply.toast.message, "Guardado");
    assert!(reply.refetch);
    let s = MemberInterestsUpsert(true, 10, 4, MemberInterestsEvent::RemoveFinished(Ok(())));
    assert_eq!(s.reply.unwrap().toast.message, "Borrado");
    let s = MemberInterestsUpsert(true, 10, 4, MemberInterestsEvent::RemoveFinished(Err("x".to_string())));
    let reply = s.reply.unwrap();
    assert_eq!(reply.toast.message, "Error: x");
    assert!(!reply.refetch);
}

#[test]
fn email_everybody_card() {
    let s = AllEmails(draft("", "b"), AllEmailsEvent::SubjectInput("Hola".to_string()));
    assert_eq!(s.draft.subject, "Hola");
    assert_eq!(s.draft.body, "b");
    let s = AllEmails(draft("S", "B"), AllEmailsEvent::SendClicked);
    assert_eq!(s.send.unwrap().subject, "S");
    let s = AllEmails(draft("S", "B"), AllEmailsEvent::SendFinished(Ok(())));
    assert!(s.draft.subject.is_empty() && s.close_dialog);
    assert_eq!(s.toast.unwrap().message, "Enviado");
    let s = AllEmails(draft("S", "B"), AllEmailsEvent::SendFinished(Err("no".to_string())));
    assert_eq!(s.draft.subject, "S");
    assert!(!s.close_dialog);
}

#[test]
fn email_by_interest_card() {
    let state = CategoryEmailsState { page: DialogPage::InterestSelection, interests: vec![], draft: draft("", "") };
    let s = CategoryEmails(state, CategoryEmailsEvent::InterestsLoaded(vec![interest(1, "Golf"), interest(2, "Spa")]));
    assert_eq!(s.state.interests.len(), 2);
    assert!(s.state.interests.iter().all(|i| !i.selected));
    let s = CategoryEmails(s.state, CategoryEmailsEvent::NextClicked);
    assert_eq!(s.toast.unwrap().message, "Selecciona al menos un interés");
    assert_eq!(s.state.page, DialogPage::InterestSelection);
    let s = CategoryEmails(s.state, CategoryEmailsEvent::Toggle(1, true));
    let s = CategoryEmails(s.state, CategoryEmailsEvent::Toggle(9, true));
    let s = CategoryEmails(s.state, CategoryEmailsEvent::NextClicked);
    assert_eq!(s.state.page, DialogPage::MailComposing);
    let s = CategoryEmails(s.state, CategoryEmailsEvent::SubjectInput("S".to_string()));
    let s = CategoryEmails(s.state, CategoryEmailsEvent::BodyInput("B".to_string()));
    let s = CategoryEmails(s.state, CategoryEmailsEvent::SendClicked);
    let req = s.send.unwrap();
    assert_eq!(req.interests.len(), 1);
    assert_eq!(req.interests[0].id, Some(2));
    assert_eq!(req.subject, "S");
    let s = CategoryEmails(s.state, CategoryEmailsEvent::SendFinished(Ok(())));
    assert_eq!(s.state.page, DialogPage::InterestSelection);
    assert!(s.state.draft.body.is_empty());
    let s = CategoryEmails(s.state, CategoryEmailsEvent::BackClicked);
    assert_eq!(s.state.page, DialogPage::InterestSelection);
}

#[test]
fn mail_server_test_card() {
    let t = TestEmailConfig(&Ok(()));
    assert_eq!(t.message, "Connection is Ok!");
    assert_eq!(t.toast_type, ToastType::Success);
    let t = TestEmailConfig(&Err("Failed to connect to email server x".to_string()));
    assert_eq!(t.message, "Failed to connect to email server x");
    assert_eq!(t.toast_type, ToastType::Error);
}

#[test]
fn member_email_card() {
    let s = MemberEmails(true, 4, draft("", ""), MemberEmailsEvent::BodyInput("Hola".to_string()));
    assert_eq!(s.draft.body, "Hola");
    let s = MemberEmails(true, 4, draft("S", "B"), MemberEmailsEvent::SendClicked);
    let q = s.send.unwrap();
    assert_eq!(q.member_id, 4);
    assert_eq!(q.original_body, "B");
    let s = MemberEmails(true, 4, draft("S", "B"), MemberEmailsEvent::SendFinished(Ok(())));
    assert!(s.refetch && s.close_dialog);
    assert!(s.draft.subject.is_empty());
    let s = MemberEmails(true, 4, draft("S", "B"), MemberEmailsEvent::SendFinished(Err("x".to_string())));
    assert!(!s.refetch);
    assert_eq!(s.toast.unwrap().message, "Error: x");
}

#[test]
fn cupon_dialogs() {
    let d = CuponDraft::empty();
    let s = MemberCupons(true, 6, d, CuponDialogEvent::DescriptionInput("Spa".to_string()));
    let s = MemberCupons(true, 6, s.draft, CuponDialogEvent::ExpiryInput("2030-01-01".to_string()));
    let s = MemberCupons(true, 6, s.draft, CuponDialogEvent::SendClicked);
    let q = s.send.unwrap();
    assert_eq!(q.member_id, Some(6));
    assert_eq!(q.cupon_description, "Spa");
    assert_eq!(q.cupon_expires_at, Some(Date { year: 2030, month: 1, day: 1 }));
    let s = MemberCupons(true, 6, s.draft, CuponDialogEvent::SendFinished(Ok(())));
    assert!(s.refetch && s.close_dialog);
    assert!(s.draft.description.is_empty() && s.draft.expires_at.is_none());
    let s = AllCuponEmails(CuponDraft::empty(), CuponDialogEvent::SendClicked);
    assert_eq!(s.send.unwrap().member_id, None);
    let s = AllCuponEmails(CuponDraft::empty(), CuponDialogEvent::SendFinished(Ok(())));
    assert!(!s.refetch && !s.close_dialog);
    assert_eq!(s.toast.unwrap().message, "Enviado");
}

fn check_state() -> CuponCheckState {
    CuponCheckState { cupons: vec![], cupon_input: String::new(), search_input: String::new(), current_page: 1 }
}

fn found(code: &str, id: i32, used: bool, name: &str) -> CuponWithMember {
    CuponWithMember {
        cupon: Cupon { id: Some(id), code: code.to_string(), used, ..Default::default() },
        member: Member { id: Some(id), name: name.to_string(), surname: "X".to_string(), ..Default::default() },
    }
}

#[test]
fn cupon_check_search() {
    let s = CuponCheckPage(check_state(), CuponCheckEvent::QueryLoaded(Some("ABC".to_string())));
    assert_eq!(s.state.cupon_input, "ABC");
    let s = CuponCheckPage(s.state, CuponCheckEvent::SearchClicked);
    assert!(matches!(s.action, Some(CuponCheckAction::SearchByCode(ref c)) if c == "ABC"));
    let s = CuponCheckPage(s.state, CuponCheckEvent::SearchFinished(Ok(vec![])));
    let t = s.toast.unwrap();
    assert_eq!(t.message, "No existe o esta caducado!");
    assert_eq!(t.toast_type, ToastType::Error);
    let s = CuponCheckPage(s.state, CuponCheckEvent::SearchFinished(Ok(vec![found("ABC", 1, false, "Ana")])));
    assert_eq!(s.state.cupons.len(), 1);
    let s = CuponCheckPage(s.state, CuponCheckEvent::SearchFinished(Err("db".to_string())));
    assert_eq!(s.toast.unwrap().message, "Error: db");
    assert_eq!(s.state.cupons.len(), 1);
    let s = CuponCheckPage(s.state, CuponCheckEvent::CuponInput(String::new()));
    let s = CuponCheckPage(s.state, CuponCheckEvent::SearchClicked);
    assert!(s.action.is_none());
    assert!(s.state.cupons.is_empty());
}

#[test]
fn cupon_check_swap_and_pages() {
    let mut st = check_state();
    st.cupon_input = "K".to_string();
    st.cupons = vec![found("K", 1, false, "Ana")];
    let s = CuponCheckPage(st, CuponCheckEvent::SwapClicked(Some(1), false));
    assert!(matches!(s.action, Some(CuponCheckAction::SwapUsed { cupon_id: 1, current_value: false })));
    let s = CuponCheckPage(s.state, CuponCheckEvent::SwapClicked(None, false));
    assert!(s.action.is_none());
    let s = CuponCheckPage(s.state, CuponCheckEvent::PageClicked(3));
    assert_eq!(s.state.current_page, 3);
    let s = CuponCheckPage(s.state, CuponCheckEvent::SearchInput("an".to_string()));
    assert_eq!(s.state.current_page, 1);
    assert_eq!(s.state.search_input, "an");
    let s = CuponCheckPage(s.state, CuponCheckEvent::SwapFinished(Ok(())));
    assert_eq!(s.toast.unwrap().message, "Cambiado");
    assert!(s.state.cupons.is_empty());
    assert!(matches!(s.action, Some(CuponCheckAction::SearchByCode(ref c)) if c == "K"));
}

#[test]
fn cupon_check_table() {
    let (rows, p) = cupon_check_page(vec![], "", 1);
    assert!(rows.is_none() && p.is_none());
    let list: Vec<CuponWithMember> = (1..=25).map(|i| found("K", i, i % 2 == 0, if i == 3 { "Berta" } else { "Ana" })).collect();
    let (rows, p) = cupon_check_page(list.clone(), "", 2);
    let rows = rows.unwrap();
    assert_eq!(rows.len(), 5);
    assert_eq!(rows[0].id, "21");
    assert_eq!(rows[0].owner, "Ana X ");
    assert_eq!(rows[0].used, "No");
    assert_eq!(rows[0].sent_on, "N/A");
    assert_eq!(rows[0].cupon_id, Some(21));
    assert_eq!(p.unwrap().pages, vec![1, 2]);
    let (rows, _) = cupon_check_page(list.clone(), "BERTA", 1);
    let rows = rows.unwrap();
    assert_eq!(rows.len(), 1);
    assert_eq!(rows[0].id, "3");
    let (rows, p) = cupon_check_page(list, "nadie", 1);
    assert!(rows.unwrap().is_empty());
    assert!(p.is_none());
}

#[test]
fn member_cards_do_nothing_outside_edit_mode() {
    let s = MemberEmails(false, 4, draft("S", "B"), MemberEmailsEvent::SendClicked);
    assert!(s.send.is_none());
    let s = MemberEmails(false, 4, draft("S", "B"), MemberEmailsEvent::BodyInput("x".to_string()));
    assert_eq!(s.draft.body, "B");
    let s = MemberEmails(false, 4, draft("S", "B"), MemberEmailsEvent::SendFinished(Ok(())));
    assert!(s.refetch);
    let s = MemberCupons(false, 6, CuponDraft::empty(), CuponDialogEvent::SendClicked);
    assert!(s.send.is_none());
    let s = MemberCupons(false, 6, CuponDraft::empty(), CuponDialogEvent::DescriptionInput("x".to_string()));
    assert!(s.draft.description.is_empty());
}

#[test]
fn empty_date_input_clears_the_expiry() {
    let s = AllCuponEmails(CuponDraft::empty(), CuponDialogEvent::ExpiryInput("2031-05-06".to_string()));
    assert_eq!(s.draft.expires_at, Some(Date { year: 2031, month: 5, day: 6 }));
    let s = AllCuponEmails(s.draft, CuponDialogEvent::ExpiryInput(String::new()));
    assert_eq!(s.draft.expires_at, None);
    let s = AllCuponEmails(s.draft, CuponDialogEvent::ExpiryInput("mañana".to_string()));
    assert_eq!(s.draft.expires_at, None);
}

#[test]
fn edit_pages_need_a_stored_record() {
    let new_user = UserUpsertModel::default();
    let c = UpsertUserPage(&new_user);
    assert!(!c.edit_enabled && !c.change_password_enabled && !c.delete_enabled);
    assert!(password_fields_shown(&new_user));
    assert_eq!(delete_request(new_user.id), None);
    let stored = UserUpsertModel { id: Some(5), ..Default::default() };
    let c = UpsertUserPage(&stored);
    assert!(c.edit_enabled && c.change_password_enabled && c.delete_enabled);
    assert!(!password_fields_shown(&stored));
    assert_eq!(delete_request(stored.id), Some(5));
    let m = Member { id: Some(2), name: "Ana".to_string(), ..Default::default() };
    let c = UpsertMemberPage(&m);
    assert!(c.edit_enabled && c.delete_enabled && c.cards_shown);
    assert!(!UpsertMemberPage(&Member::default()).cards_shown);
    assert_eq!(member_page_model(Some(Ok(m))).name, "Ana");
    assert_eq!(member_page_model(None).id, None);
    assert_eq!(member_page_model(Some(Err("x".to_string()))).name, "");
    assert_eq!(user_page_model(Some(Ok(stored))).id, Some(5));
    assert_eq!(user_page_model(Some(Err("x".to_string()))).id, None);
}

#[test]
fn save_and_delete_replies_go_to_the_lists() {
    let r = saved_reply(RecordKind::Member, &Ok(()));
    assert_eq!(r.toast.message, "Guardado");
    assert_eq!(r.toast.toast_type, ToastType::Success);
    assert_eq!(r.navigate_to.as_deref(), Some("/members"));
    assert_eq!(saved_reply(RecordKind::User, &Ok(())).navigate_to.as_deref(), Some("/users"));
    assert_eq!(saved_reply(RecordKind::Interest, &Ok(())).navigate_to.as_deref(), Some("/interests"));
    let r = saved_reply(RecordKind::Member, &Err("x".to_string()));
    assert_eq!(r.toast.message, "Error: x");
    assert!(r.navigate_to.is_none());
    let r = deleted_reply(RecordKind::User, &Ok(()));
    assert_eq!(r.toast.message, "Eliminado");
    assert_eq!(r.navigate_to.as_deref(), Some("/users"));
}
