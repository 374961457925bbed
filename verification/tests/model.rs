use socios_peix::cupon::{cupon_code, Cupon};
use socios_peix::dates::{Date, DateTime};
use socios_peix::email::Email;
use socios_peix::gender::Gender;
use socios_peix::interest::Interest;
use socios_peix::member::{Member, MemberRow};
use socios_peix::user::{
    login_failure, password_change_failure, session_user, upsert_failure, upsert_operation, DbError,
    UpsertOperation, User, UserError, UserUpsertModel,
};

fn member(id: Option<i32>, name: &str, surname: &str, second: &str) -> Member {
    Member {
        id,
        name: name.to_string(),
        surname: surname.to_string(),
        second_surname: second.to_string(),
        ..Default::default()
    }
}

#[test]
fn gender_ids_round_trip() {
    for g in Gender::all() {
        assert_eq!(Gender::from_id(g.to_id()), Some(g));
    }
    assert_eq!(Gender::Male.to_id(), 1);
    assert_eq!(Gender::Female.to_id(), 2);
    assert_eq!(Gender::Other.to_id(), 3);
}

#[test]
fn unknown_gender_ids_are_refused() {
    assert_eq!(Gender::from_id(0), None);
    assert_eq!(Gender::from_id(4), None);
    assert_eq!(Gender::from_id(-1), None);
}

#[test]
fn gender_labels_and_default() {
    assert_eq!(Gender::Male.label(), "Hombre");
    assert_eq!(Gender::Female.label(), "Mujer");
    assert_eq!(Gender::Other.label(), "Otros");
    assert_eq!(Gender::default(), Gender::Male);
}

#[test]
fn member_full_name_and_validity() {
    let m = member(Some(1), "Ana", "Pérez", "Gómez");
    assert_eq!(m.get_full_name(), "Ana Pérez Gómez");
    assert_eq!(m.display_text(), "Ana");
    assert!(m.is_valid());
    assert!(!member(None, "", "Pérez", "").is_valid());
    assert!(!member(None, "Ana", "", "").is_valid());
    assert_eq!(member(None, "Ana", "Pérez", "").get_full_name(), "Ana Pérez ");
}

#[test]
fn members_compare_by_id() {
    let a = member(Some(3), "Ana", "A", "");
    let b = member(Some(3), "Luis", "B", "");
    let c = member(Some(4), "Ana", "A", "");
    let no_id = member(None, "Ana", "A", "");
    assert!(a == b);
    assert!(a != c);
    assert!(no_id != no_id.clone());
    assert!(member(Some(0), "x", "y", "") == no_id);
}

#[test]
fn member_from_row_reads_unknown_gender_as_default() {
    let row = MemberRow {
        id: Some(9),
        name: "Eva".to_string(),
        surname: "Ruiz".to_string(),
        second_surname: String::new(),
        email: "eva@example.com".to_string(),
        birthdate: Some(Date { year: 1990, month: 5, day: 17 }),
        phone: "600".to_string(),
        country_id: 34,
        country: "España".to_string(),
        gender_id: 7,
        notes: "n".to_string(),
        created_at: None,
        updated_at: None,
    };
    let row2 = MemberRow { gender_id: 2, ..row.clone() };
    let m = Member::from_row(row);
    assert_eq!(m.gender, Gender::Male);
    assert_eq!(m.country_id, 34);
    assert_eq!(m.country, "España");
    assert_eq!(m.name, "Eva");
    assert_eq!(Member::from_row(row2).gender, Gender::Female);
}

#[test]
fn interest_validity_and_text() {
    let i = Interest { id: Some(1), name: "Golf".to_string(), ..Default::default() };
    assert!(i.is_valid());
    assert_eq!(i.display_text(), "Golf");
    assert!(!Interest::default().is_valid());
}

#[test]
fn email_records_and_comparison() {
    let e = Email::new_record(5, "Hola".to_string(), "Cuerpo".to_string());
    assert_eq!(e.id, None);
    assert_eq!(e.to_member_id, 5);
    assert!(e.is_valid());
    let no_subject = Email { subject: String::new(), ..e.clone() };
    assert!(!no_subject.is_valid());
    let a = Email { id: Some(1), ..Default::default() };
    let b = Email { id: Some(1), subject: "x".to_string(), ..Default::default() };
    assert!(a == b);
    assert!(Email::default() != Email::default());
}

#[test]
fn cupon_for_member_is_new_and_unused() {
    let c = Cupon::for_member(4, "ABC123".to_string(), "10% off".to_string(), Some(Date { year: 2030, month: 1, day: 2 }));
    assert_eq!(c.id, None);
    assert_eq!(c.member_id, Some(4));
    assert!(!c.used);
    assert!(!c.is_deleted);
    assert_eq!(c.display_text(), "ABC123");
    assert_eq!(c.created_at, None);
}

#[test]
fn user_form_validity_per_operation() {
    let add = UserUpsertModel {
        id: None,
        username: "ana".to_string(),
        old_password: String::new(),
        new_password: "pw".to_string(),
        new_password_repeat: "pw".to_string(),
    };
    assert!(add.is_valid(UpsertOperation::Add));
    let mismatch = UserUpsertModel { new_password_repeat: "pw2".to_string(), ..add.clone() };
    assert!(!mismatch.is_valid(UpsertOperation::Add));
    let no_name = UserUpsertModel { username: String::new(), ..add.clone() };
    assert!(!no_name.is_valid(UpsertOperation::Add));
    assert!(!no_name.is_valid(UpsertOperation::Edit));
    assert!(add.is_valid(UpsertOperation::Edit));
    assert!(!add.is_valid(UpsertOperation::PasswordChange));
    let change = UserUpsertModel { old_password: "old".to_string(), ..add.clone() };
    assert!(change.is_valid(UpsertOperation::PasswordChange));
    let stored = UserUpsertModel::from_stored(Some(2), "ana".to_string());
    assert_eq!(stored.id, Some(2));
    assert!(stored.new_password.is_empty() && stored.old_password.is_empty());
}

#[test]
fn user_errors_from_database_and_messages() {
    let e = UserError::from_db(DbError::RowNotFound);
    assert_eq!(e.message(), "Operation failed: Username not found");
    let d = UserError::from_db(DbError::Other("disk".to_string()));
    assert_eq!(d.message(), "Database error: disk");
    assert_eq!(login_failure(&e), "Login failed: Username not found");
    assert_eq!(login_failure(&d), "Login failed with database error: disk");
    assert_eq!(upsert_failure(&d), "Failed to upsert user: Database error: disk");
    assert_eq!(password_change_failure(&e), "Failed to change user password: Operation failed: Username not found");
}

#[test]
fn user_login_checks_the_stored_hash() {
    let hash = socios_peix::passwords::encrypt_password("clave".to_string()).unwrap();
    let stored = User {
        id: Some(1),
        username: "admin".to_string(),
        password: hash.clone(),
        created_at: Some(DateTime { date: Date { year: 2024, month: 1, day: 1 }, hour: 0, minute: 0, second: 0 }),
        updated_at: None,
    };
    let ok = User::login(stored.clone(), "clave".to_string()).unwrap();
    assert_eq!(ok.username, "admin");
    assert!(ok.password.is_empty());
    assert_eq!(ok.id, Some(1));
    match User::login(stored, "otra".to_string()) {
        Err(UserError::OperationFailed(m)) => assert!(m.starts_with("Passwords do not match: ")),
        _ => panic!("expected a refused log-in"),
    }
}

#[test]
fn user_add_and_password_change() {
    let form = UserUpsertModel {
        id: None,
        username: "luis".to_string(),
        old_password: String::new(),
        new_password: "nueva".to_string(),
        new_password_repeat: "nueva".to_string(),
    };
    let rec = User::add(form).unwrap();
    assert_eq!(rec.username, "luis");
    assert!(socios_peix::passwords::verify_password("nueva".to_string(), rec.password_hash.clone()).is_ok());
    match User::change_password(rec.password_hash.clone(), "mala".to_string(), "otra".to_string()) {
        Err(UserError::OperationFailed(m)) => assert_eq!(m, "Old password is incorrect"),
        _ => panic!("expected the old password to be refused"),
    }
    let h = User::change_password(rec.password_hash, "nueva".to_string(), "otra".to_string()).unwrap();
    assert!(socios_peix::passwords::verify_password("otra".to_string(), h).is_ok());
}

#[test]
fn user_save_operation_and_session() {
    assert_eq!(upsert_operation(None), UpsertOperation::Add);
    assert_eq!(upsert_operation(Some(3)), UpsertOperation::Edit);
    assert_eq!(session_user(None).unwrap_err(), "Failed to retrieve session");
    assert_eq!(session_user(Some(None)).unwrap_err(), "Failed to retrieve user in session");
    let u = User { id: Some(1), username: "a".to_string(), password: String::new(), created_at: None, updated_at: None };
    assert_eq!(session_user(Some(Some(u))).unwrap().unwrap().username, "a");
}

#[test]
fn users_compare_by_id() {
    let a = User { id: Some(1), username: "a".to_string(), password: String::new(), created_at: None, updated_at: None };
    let b = User { username: "b".to_string(), ..a.clone() };
    assert!(a == b);
    let c = User { id: None, ..a.clone() };
    assert!(c != c.clone());
}

#[test]
fn cupon_codes_are_eight_digits() {
    assert_eq!(cupon_code(42), "00000042");
    assert_eq!(cupon_code(1_234_567_890_123), "67890123");
    assert_eq!(cupon_code(0).len(), 8);
}
