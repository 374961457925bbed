use socios_peix::components::{InterestsList, TodayEmails, TodayMembers, UsersList};
use socios_peix::cupon::{Cupon, CuponWithMember};
use socios_peix::dates::{Date, DateTime};
use socios_peix::email::{Email, TodayEmail};
use socios_peix::filters::{
    contains_interest_id, filter_cupons, filter_members, has_selected_interests, member_matches_query, selected_interests,
    SelectableInterest,
};
use socios_peix::interest::Interest;
use socios_peix::member::{Member, MemberWithInterests};
use socios_peix::member_pages::{
    export_failed, export_request, member_cupons_page, member_emails_page, optional_id, used_label, MembersList,
};
use socios_peix::pagination::{next_page, page_items, paged, pager, prev_page, total_pages};
use socios_peix::ui::{Listing, ToastType};
use socios_peix::user::User;

fn interest(id: i32, name: &str) -> Interest {
    Interest { id: Some(id), name: name.to_string(), ..Default::default() }
}

fn member(id: i32, name: &str, surname: &str, email: &str, phone: &str) -> Member {
    Member {
        id: Some(id),
        name: name.to_string(),
        surname: surname.to_string(),
        email: email.to_string(),
        phone: phone.to_string(),
        ..Default::default()
    }
}

fn with_interests(m: Member, interests: Vec<Interest>) -> MemberWithInterests {
    MemberWithInterests { member: m, interests }
}

fn sample_members() -> Vec<MemberWithInterests> {
    vec![
        with_interests(member(1, "Ana", "Pérez", "ana@x.com", "600111"), vec![interest(1, "Golf"), interest(2, "Spa")]),
        with_interests(member(2, "Luis", "García", "luis@y.com", "611222"), vec![interest(2, "Spa")]),
        with_interests(member(3, "ÁLVARO", "Ruiz", "alv@z.com", "622333"), vec![]),
    ]
}

#[test]
fn pages_are_counted_with_a_minimum_of_one() {
    assert_eq!(total_pages(0, 20), 1);
    assert_eq!(total_pages(20, 20), 1);
    assert_eq!(total_pages(21, 20), 2);
    assert_eq!(total_pages(7, 5), 2);
    assert_eq!(total_pages(1, 1), 1);
}

#[test]
fn a_page_holds_its_items() {
    let v: Vec<u32> = (0..12).collect();
    assert_eq!(page_items(v.clone(), 1, 5), vec![0, 1, 2, 3, 4]);
    assert_eq!(page_items(v.clone(), 3, 5), vec![10, 11]);
    assert_eq!(page_items(v.clone(), 4, 5), Vec::<u32>::new());
}

#[test]
fn every_item_is_on_exactly_one_page() {
    let v: Vec<u32> = (0..23).collect();
    let pages = total_pages(v.len(), 5);
    let mut all = Vec::new();
    for p in 1..=pages {
        all.extend(page_items(v.clone(), p, 5));
    }
    assert_eq!(all, v);
}

#[test]
fn page_buttons_form_a_window_of_five() {
    let p = pager(1, 10);
    assert_eq!(p.pages, vec![1, 2, 3, 4, 5]);
    assert!(!p.prev_enabled);
    assert!(p.next_enabled);
    let p = pager(6, 10);
    assert_eq!(p.pages, vec![4, 5, 6, 7, 8]);
    let p = pager(10, 10);
    assert_eq!(p.pages, vec![6, 7, 8, 9, 10]);
    assert!(p.prev_enabled);
    assert!(!p.next_enabled);
    let p = pager(2, 3);
    assert_eq!(p.pages, vec![1, 2, 3]);
    let p = pager(1, 1);
    assert_eq!(p.pages, vec![1]);
}

#[test]
fn previous_and_next_stay_in_range() {
    assert_eq!(prev_page(1), 1);
    assert_eq!(prev_page(4), 3);
    assert_eq!(next_page(4, 4), 4);
    assert_eq!(next_page(2, 4), 3);
}

#[test]
fn paged_gives_rows_and_buttons_only_for_a_nonempty_page() {
    let v: Vec<u32> = (0..9).collect();
    let (rows, p) = paged(v.clone(), 2, 8);
    assert_eq!(rows, vec![8]);
    assert_eq!(p.unwrap().pages, vec![1, 2]);
    let (rows, p) = paged(v, 3, 8);
    assert!(rows.is_empty());
    assert!(p.is_none());
}

#[test]
fn ticked_interests_in_order() {
    let items = vec![
        SelectableInterest { interest: interest(1, "Golf"), selected: true },
        SelectableInterest { interest: interest(2, "Spa"), selected: false },
        SelectableInterest { interest: interest(3, "Vino"), selected: true },
    ];
    let chosen = selected_interests(&items);
    assert_eq!(chosen.iter().map(|i| i.id.unwrap()).collect::<Vec<_>>(), vec![1, 3]);
}

#[test]
fn interest_membership_goes_by_id() {
    let list = vec![interest(1, "Golf"), interest(2, "Spa")];
    assert!(contains_interest_id(&list, Some(2)));
    assert!(!contains_interest_id(&list, Some(5)));
    assert!(!contains_interest_id(&list, None));
    assert!(has_selected_interests(&list, &vec![interest(2, "Otro nombre")]));
    assert!(!has_selected_interests(&list, &vec![interest(1, "Golf"), interest(3, "Vino")]));
    assert!(has_selected_interests(&vec![], &vec![]));
}

#[test]
fn member_search_matches_name_email_or_phone() {
    let m = member(1, "Ana", "Pérez", "ana@x.com", "600111");
    assert!(member_matches_query(&m, ""));
    assert!(member_matches_query(&m, "ana pé"));
    assert!(member_matches_query(&m, "x.com"));
    assert!(member_matches_query(&m, "0111"));
    assert!(!member_matches_query(&m, "luis"));
}

#[test]
fn search_also_matches_the_country() {
    let mut m = member(9, "Ana", "Pérez", "ana@x.com", "600111");
    m.country = "Francia".to_string();
    assert!(member_matches_query(&m, "franc"));
    let found = filter_members(vec![with_interests(m.clone(), vec![])], "FRANCIA", &vec![]);
    assert_eq!(found.len(), 1);
    let cupons = vec![CuponWithMember { cupon: Cupon::default(), member: m }];
    assert_eq!(filter_cupons(cupons, "Fran").len(), 1);
}

#[test]
fn filter_members_by_search_and_interests() {
    let all = filter_members(sample_members(), "", &vec![]);
    assert_eq!(all.len(), 3);
    let by_text = filter_members(sample_members(), "ÁLV", &vec![]);
    assert_eq!(by_text.len(), 1);
    assert_eq!(by_text[0].member.id, Some(3));
    let by_interest = filter_members(sample_members(), "", &vec![interest(2, "Spa")]);
    assert_eq!(by_interest.iter().map(|m| m.member.id.unwrap()).collect::<Vec<_>>(), vec![1, 2]);
    let both = filter_members(sample_members(), "GARC", &vec![interest(2, "Spa")]);
    assert_eq!(both.len(), 1);
    assert_eq!(both[0].member.id, Some(2));
    let none = filter_members(sample_members(), "ana", &vec![interest(9, "X")]);
    assert!(none.is_empty());
}

#[test]
fn members_list_states() {
    assert!(matches!(MembersList(None, "", &vec![]).rows, Listing::Loading));
    let failed = MembersList(Some(Err("x".to_string())), "", &vec![]);
    assert!(failed.filtered.is_none());
    assert!(matches!(failed.rows, Listing::Empty));
    let empty = MembersList(Some(Ok(sample_members())), "nadie", &vec![]);
    assert!(matches!(empty.rows, Listing::Empty));
    assert_eq!(empty.filtered.unwrap().len(), 0);
    let view = MembersList(Some(Ok(sample_members())), "luis", &vec![]);
    match view.rows {
        Listing::Rows(rows) => {
            assert_eq!(rows.len(), 1);
            assert_eq!(rows[0].id, "2");
            assert_eq!(rows[0].full_name, "Luis García ");
            assert_eq!(rows[0].birthdate, "N/A");
            assert_eq!(rows[0].gender, "Hombre");
            assert_eq!(rows[0].country, "");
            assert_eq!(rows[0].link, "/members/2");
        }
        _ => panic!("expected rows"),
    }
}

#[test]
fn export_needs_a_loaded_list() {
    assert!(export_request(Some(sample_members())).is_ok());
    let t = export_request(None).unwrap_err();
    assert_eq!(t.message, "No data to export");
    assert_eq!(t.toast_type, ToastType::Error);
    assert_eq!(export_failed("boom").message, "Error Exporting boom");
}

#[test]
fn filter_cupons_by_member() {
    let cupons = vec![
        CuponWithMember { cupon: Cupon { code: "A1".to_string(), ..Default::default() }, member: member(1, "Ana", "Pérez", "ana@x.com", "1") },
        CuponWithMember { cupon: Cupon { code: "A1".to_string(), ..Default::default() }, member: member(2, "Luis", "García", "l@y.com", "2") },
    ];
    assert_eq!(filter_cupons(cupons.clone(), "").len(), 2);
    let r = filter_cupons(cupons, "PÉREZ");
    assert_eq!(r.len(), 1);
    assert_eq!(r[0].member.id, Some(1));
}

#[test]
fn interest_and_user_lists() {
    assert!(matches!(InterestsList(&None), Listing::Loading));
    assert!(matches!(InterestsList(&Some(Ok(vec![]))), Listing::Empty));
    assert!(matches!(InterestsList(&Some(Err("e".to_string()))), Listing::Empty));
    match InterestsList(&Some(Ok(vec![Interest { description: "d".to_string(), ..interest(4, "Golf") }]))) {
        Listing::Rows(rows) => {
            assert_eq!(rows[0].id, "4");
            assert_eq!(rows[0].name, "Golf");
            assert_eq!(rows[0].link, "/interests/4");
        }
        _ => panic!("expected rows"),
    }
    let u = User {
        id: None,
        username: "root".to_string(),
        password: String::new(),
        created_at: Some(DateTime { date: Date { year: 2024, month: 2, day: 29 }, hour: 1, minute: 2, second: 3 }),
        updated_at: None,
    };
    match UsersList(&Some(Ok(vec![u]))) {
        Listing::Rows(rows) => {
            assert_eq!(rows[0].id, "0");
            assert_eq!(rows[0].created, "29-02-2024");
            assert_eq!(rows[0].updated, "N/A");
            assert_eq!(rows[0].link, "/users/0");
        }
        _ => panic!("expected rows"),
    }
}

#[test]
fn today_members_and_emails() {
    assert!(matches!(TodayMembers(None), Listing::Loading));
    assert!(matches!(TodayMembers(Some(Ok(vec![]))), Listing::Empty));
    match TodayMembers(Some(Ok(vec![member(1, "Ana", "P", "", "")]))) {
        Listing::Rows(v) => assert_eq!(v.len(), 1),
        _ => panic!("expected rows"),
    }
    let emails: Vec<TodayEmail> = (1..=10)
        .map(|i| TodayEmail {
            id: i,
            member_id: 100 + i,
            member_full_name: format!("Socio {i}"),
            subject: "S".to_string(),
            body: "B".to_string(),
            created_at: None,
        })
        .collect();
    let view = TodayEmails(Some(Ok(emails.clone())), 2);
    let rows = view.rows.unwrap();
    assert_eq!(rows.len(), 2);
    assert_eq!(rows[0].id, "9");
    assert_eq!(rows[0].link, "/members/109");
    assert_eq!(rows[0].sent_on, "N/A");
    assert_eq!(view.pager.unwrap().pages, vec![1, 2]);
    let view = TodayEmails(Some(Ok(emails)), 3);
    assert!(view.rows.unwrap().is_empty());
    assert!(view.pager.is_none());
    assert!(TodayEmails(None, 1).rows.is_none());
}

#[test]
fn member_email_and_cupon_pages() {
    let emails: Vec<Email> = (0..6)
        .map(|i| Email { id: Some(i), to_member_id: 1, subject: format!("S{i}"), body: "B".to_string(), created_at: None })
        .collect();
    let (rows, p) = member_emails_page(Some(Ok(emails)), 2);
    let rows = rows.unwrap();
    assert_eq!(rows.len(), 1);
    assert_eq!(rows[0].subject, "S5");
    assert_eq!(rows[0].id, "5");
    assert!(p.is_some());
    let (rows, p) = member_emails_page(None, 1);
    assert!(rows.is_none() && p.is_none());

    let cupon = Cupon {
        id: None,
        code: "XY9".to_string(),
        used: true,
        expires_at: Some(Date { year: 2026, month: 12, day: 1 }),
        ..Default::default()
    };
    let (rows, _) = member_cupons_page(Some(Ok(vec![cupon])), 1);
    let rows = rows.unwrap();
    assert_eq!(rows[0].id, "");
    assert_eq!(rows[0].used, "Sí");
    assert_eq!(rows[0].expires_on, "01-12-2026");
    assert_eq!(rows[0].sent_on, "N/A");
    assert_eq!(rows[0].link, "/cupon-check?cupon=XY9");
    assert_eq!(used_label(false), "No");
    assert_eq!(optional_id(Some(-3)), "-3");
}
