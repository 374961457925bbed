use socios_peix::campaigns::{
    campaign_step, member_cupon_email, single_email, single_send_outcome, Campaign, CampaignAction, CampaignEvent,
    CampaignPhase, CampaignRun,
};
use socios_peix::cupon::Cupon;
use socios_peix::dates::Date;
use socios_peix::mailing::{
    birthday_send_outcome, email_test_outcome, interests_send_outcome, plan_single_email, validate_interests_cupon_email,
    validate_interests_email, SendTally,
};
use socios_peix::member::Member;
use socios_peix::templates::{
    get_birthday_styled, get_cupon_styled, get_normal_styled, BIRTHDAY_AFTER_NAME, BIRTHDAY_BEFORE_NAME, CUPON_AFTER_DATE,
    CUPON_BEFORE_BODY, CUPON_BEFORE_CODE, CUPON_BEFORE_DATE, CUPON_BEFORE_DESCRIPTION, CUPON_BEFORE_NAME,
    NORMAL_AFTER_BODY, NORMAL_BEFORE_BODY, UNKNOWN_DATE,
};

fn member(id: Option<i32>, name: &str, email: &str) -> Member {
    Member {
        id,
        name: name.to_string(),
        surname: "Soler".to_string(),
        second_surname: "Vidal".to_string(),
        email: email.to_string(),
        ..Default::default()
    }
}

fn tally(successful: usize, failed: usize) -> SendTally {
    SendTally { successful, failed }
}

#[test]
fn templates_wrap_the_message() {
    assert_eq!(get_normal_styled("Hola".to_string()), format!("{NORMAL_BEFORE_BODY}Hola{NORMAL_AFTER_BODY}"));
    let m = member(Some(1), "Marta", "m@x.com");
    let b = get_birthday_styled(&m);
    assert_eq!(b, format!("{BIRTHDAY_BEFORE_NAME}Marta Soler Vidal{BIRTHDAY_AFTER_NAME}"));
    assert!(b.contains("¡Feliz Cumpleaños, Marta Soler Vidal!"));
}

#[test]
fn cupon_template_shows_code_description_and_expiry() {
    let m = member(Some(1), "Marta", "m@x.com");
    let c = Cupon::for_member(1, "Z9".to_string(), "Cena gratis".to_string(), Some(Date { year: 2025, month: 6, day: 30 }));
    let b = get_cupon_styled("Texto".to_string(), &m, &c);
    assert_eq!(
        b,
        format!(
            "{CUPON_BEFORE_NAME}Marta{CUPON_BEFORE_BODY}Texto{CUPON_BEFORE_CODE}Z9{CUPON_BEFORE_DESCRIPTION}Cena gratis{CUPON_BEFORE_DATE}30-06-2025{CUPON_AFTER_DATE}"
        )
    );
    let no_date = Cupon { expires_at: None, ..c };
    assert!(get_cupon_styled("T".to_string(), &m, &no_date).contains(UNKNOWN_DATE));
}

#[test]
fn single_email_plan_checks_addresses() {
    let m = member(Some(7), "Marta", "marta@example.com");
    let out = plan_single_email(
        &m,
        7,
        &"Hotel".to_string(),
        &"hotel@example.com".to_string(),
        "Asunto".to_string(),
        "<p>x</p>".to_string(),
        "x".to_string(),
    )
    .unwrap();
    assert_eq!(out.to_name, "Marta");
    assert_eq!(out.to, "marta@example.com");
    assert_eq!(out.from, "hotel@example.com");
    assert_eq!(out.record.to_member_id, 7);
    assert_eq!(out.record.body, "x");
    assert_eq!(out.body, "<p>x</p>");

    let no_mail = member(Some(7), "Marta", "");
    let e = plan_single_email(&no_mail, 7, &"H".to_string(), &"h@x.com".to_string(), "s".to_string(), "b".to_string(), "b".to_string());
    assert_eq!(e.err().unwrap(), "Member 7 has no email address");
    let bad_to = member(Some(7), "Marta", "not-an-address");
    let e = plan_single_email(&bad_to, 7, &"H".to_string(), &"h@x.com".to_string(), "s".to_string(), "b".to_string(), "b".to_string());
    assert_eq!(e.err().unwrap(), "Invalid member email address: not-an-address");
    let e = plan_single_email(&m, 7, &"H".to_string(), &"broken".to_string(), "s".to_string(), "b".to_string(), "b".to_string());
    assert_eq!(e.err().unwrap(), "Invalid from email address: broken");
}

#[test]
fn bulk_requests_are_checked_in_order() {
    assert_eq!(validate_interests_email(0, "", "").unwrap_err(), "No interests provided");
    assert_eq!(validate_interests_email(1, "  ", "b").unwrap_err(), "Subject cannot be empty");
    assert_eq!(validate_interests_email(1, "s", "\n").unwrap_err(), "Email body cannot be empty");
    assert!(validate_interests_email(2, "s", "b").is_ok());
    assert_eq!(validate_interests_cupon_email(0, "s", true, "d").unwrap_err(), "No interests provided");
    assert_eq!(validate_interests_cupon_email(1, " ", true, "d").unwrap_err(), "Subject cannot be empty");
    assert_eq!(validate_interests_cupon_email(1, "s", false, "d").unwrap_err(), "Cupon expiration cannot be empty");
    assert_eq!(validate_interests_cupon_email(1, "s", true, "").unwrap_err(), "Cupon description cannot be empty");
    assert!(validate_interests_cupon_email(1, "s", true, "d").is_ok());
}

#[test]
fn tallies_and_outcomes() {
    let mut t = SendTally::new();
    t.record(true);
    t.record(false);
    t.record(true);
    assert_eq!(t, tally(2, 1));
    assert!(interests_send_outcome(tally(3, 0), 3).is_ok());
    assert_eq!(interests_send_outcome(tally(0, 2), 2).unwrap_err(), "Failed to send emails to any members");
    assert_eq!(interests_send_outcome(tally(2, 1), 3).unwrap_err(), "Partially successful: sent 2/3 emails");
    assert!(birthday_send_outcome(tally(0, 0), 0).is_ok());
    assert_eq!(birthday_send_outcome(tally(0, 4), 4).unwrap_err(), "Failed to send emails to any of the 4 members");
    assert_eq!(
        birthday_send_outcome(tally(3, 1), 4).unwrap_err(),
        "Partially successful: sent 3/4 emails successfully, 1 failed"
    );
}

#[test]
fn mail_server_test_answers() {
    assert!(email_test_outcome(Ok(true)).is_ok());
    assert_eq!(email_test_outcome(Ok(false)).unwrap_err(), "Failed to connect to email server, reason unknown");
    assert_eq!(email_test_outcome(Err("timeout".to_string())).unwrap_err(), "Failed to connect to email server timeout");
}

#[test]
fn single_sends() {
    let e = single_email(3, "S".to_string(), "Hola".to_string());
    assert_eq!(e.member_id, 3);
    assert_eq!(e.body, format!("{NORMAL_BEFORE_BODY}Hola{NORMAL_AFTER_BODY}"));
    assert_eq!(e.record_body, "Hola");
    let m = member(Some(3), "Marta", "m@x.com");
    let (c, e) = member_cupon_email(&m, 3, "K1".to_string(), "D".to_string(), None, "S".to_string(), "B".to_string());
    assert_eq!(c.member_id, Some(3));
    assert_eq!(c.code, "K1");
    assert!(!c.used);
    assert_eq!(e.body, get_cupon_styled("B".to_string(), &m, &c));
    assert!(single_send_outcome(&Ok(())).is_ok());
    assert_eq!(single_send_outcome(&Err("smtp".to_string())).unwrap_err(), "Failed to send single email");
}

fn expect_send(a: Option<CampaignAction>) -> socios_peix::campaigns::EmailToSend {
    match a {
        Some(CampaignAction::Send(e)) => e,
        _ => panic!("expected an e-mail to send"),
    }
}

fn expect_finish(a: Option<CampaignAction>) -> Result<(), String> {
    match a {
        Some(CampaignAction::Finish(o)) => o,
        _ => panic!("expected the mailing to finish"),
    }
}

#[test]
fn birthday_run_counts_members_without_id_as_failures() {
    let members = vec![member(None, "SinId", "a@x.com"), member(Some(2), "Marta", "m@x.com"), member(Some(3), "Juan", "j@x.com")];
    let run = CampaignRun::new(Campaign::Birthday, members);
    let (run, a) = campaign_step(run, CampaignEvent::Start);
    let e = expect_send(a);
    assert_eq!(run.next, 1);
    assert_eq!(run.tally, tally(0, 1));
    assert_eq!(e.member_id, 2);
    assert_eq!(e.subject, "Feliz Cumpleaños!");
    assert_eq!(e.record_body, "Email de Cumpleaños por defecto.");
    assert!(e.body.contains("Marta Soler Vidal"));
    let (run, a) = campaign_step(run, CampaignEvent::Sent(Ok(())));
    assert_eq!(expect_send(a).member_id, 3);
    let (run, a) = campaign_step(run, CampaignEvent::Sent(Err("smtp".to_string())));
    assert_eq!(run.phase, CampaignPhase::Finished);
    assert_eq!(run.tally, tally(1, 2));
    assert_eq!(run.tally.successful + run.tally.failed, run.members.len());
    assert_eq!(expect_finish(a).unwrap_err(), "Partially successful: sent 1/3 emails successfully, 2 failed");
}

#[test]
fn birthday_run_without_members_succeeds() {
    let (run, a) = campaign_step(CampaignRun::new(Campaign::Birthday, vec![]), CampaignEvent::Start);
    assert_eq!(run.phase, CampaignPhase::Finished);
    assert!(expect_finish(a).is_ok());
}

#[test]
fn interests_run_without_members_fails() {
    let c = Campaign::Interests { subject: "S".to_string(), original_body: "B".to_string() };
    let (_, a) = campaign_step(CampaignRun::new(c, vec![]), CampaignEvent::Start);
    assert_eq!(expect_finish(a).unwrap_err(), "No members found with the provided interests");
}

#[test]
fn interests_run_sends_the_plain_template() {
    let c = Campaign::Interests { subject: "Oferta".to_string(), original_body: "Hola".to_string() };
    let (run, a) = campaign_step(CampaignRun::new(c, vec![member(Some(5), "Ana", "a@x.com")]), CampaignEvent::Start);
    let e = expect_send(a);
    assert_eq!(e.subject, "Oferta");
    assert_eq!(e.body, format!("{NORMAL_BEFORE_BODY}Hola{NORMAL_AFTER_BODY}"));
    assert_eq!(e.record_body, "Hola");
    let (_, a) = campaign_step(run, CampaignEvent::Sent(Ok(())));
    assert!(expect_finish(a).is_ok());
}

#[test]
fn cupon_run_stores_then_sends() {
    let c = Campaign::InterestsCupon {
        subject: "Regalo".to_string(),
        original_body: "Para usted".to_string(),
        code: "ABC".to_string(),
        description: "Spa".to_string(),
        expires_at: Some(Date { year: 2030, month: 1, day: 15 }),
    };
    let members = vec![member(Some(1), "Ana", "a@x.com"), member(Some(2), "Luis", "l@x.com")];
    let (run, a) = campaign_step(CampaignRun::new(c, members), CampaignEvent::Start);
    assert_eq!(run.phase, CampaignPhase::AddingCupon);
    let k = match a {
        Some(CampaignAction::AddCupon(k)) => k,
        _ => panic!("expected a coupon"),
    };
    assert_eq!(k.member_id, Some(1));
    assert_eq!(k.code, "ABC");
    assert_eq!(k.description, "Spa");
    let (run, a) = campaign_step(run, CampaignEvent::CuponAdded(Ok(())));
    let e = expect_send(a);
    assert!(e.body.contains("ABC") && e.body.contains("15-01-2030") && e.body.contains("Ana"));
    assert_eq!(e.record_body, "Para usted");
    let (run, a) = campaign_step(run, CampaignEvent::Sent(Ok(())));
    assert!(matches!(a, Some(CampaignAction::AddCupon(_))));
    let (run, a) = campaign_step(run, CampaignEvent::CuponAdded(Err("db".to_string())));
    assert_eq!(run.tally, tally(1, 1));
    assert_eq!(expect_finish(a).unwrap_err(), "Partially successful: sent 1/2 emails");
}

#[test]
fn unexpected_events_change_nothing() {
    let run = CampaignRun::new(Campaign::Birthday, vec![member(Some(1), "A", "a@x.com")]);
    let (run, a) = campaign_step(run, CampaignEvent::Sent(Ok(())));
    assert!(a.is_none());
    assert_eq!(run.phase, CampaignPhase::Ready);
    assert_eq!(run.tally, tally(0, 0));
}
