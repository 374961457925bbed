use socios_peix::gender::Gender;
use socios_peix::inputs::{gender_choice, id_choice, parse_date_input, parse_id_input};
use socios_peix::dates::{format_dmy, format_optional_datetime_dmy, format_optional_dmy, format_year, format_ymd, Date, DateTime};
use socios_peix::text::{
    chars_of, contains_text, i32_text, is_blank, join_texts, u64_text, usize_text, zero_padded,
};

#[test]
fn decimal_texts() {
    assert_eq!(u64_text(0), "0");
    assert_eq!(u64_text(1234567890), "1234567890");
    assert_eq!(u64_text(u64::MAX), u64::MAX.to_string());
    assert_eq!(i32_text(-45), "-45");
    assert_eq!(i32_text(i32::MIN), i32::MIN.to_string());
    assert_eq!(i32_text(7), "7");
    assert_eq!(usize_text(305), "305");
}

#[test]
fn zero_padded_numbers() {
    assert_eq!(zero_padded(5, 2), "05");
    assert_eq!(zero_padded(123, 2), "123");
    assert_eq!(zero_padded(42, 4), "0042");
    assert_eq!(zero_padded(0, 0), "0");
}

#[test]
fn substring_search() {
    assert!(contains_text("maria lopez", "lop"));
    assert!(contains_text("abc", ""));
    assert!(contains_text("", ""));
    assert!(!contains_text("abc", "abcd"));
    assert!(!contains_text("abc", "ac"));
    assert!(contains_text("ñandú", "dú"));
}

#[test]
fn blank_texts() {
    assert!(is_blank(""));
    assert!(is_blank("  \t\n"));
    assert!(is_blank("\u{a0}\u{2003}"));
    assert!(!is_blank(" a "));
}

#[test]
fn member_search_lower_cases_with_unicode() {
    let m = socios_peix::member::Member {
        name: "ÁNGEL".to_string(),
        surname: "Pérez".to_string(),
        ..Default::default()
    };
    let found = socios_peix::filters::filter_members(
        vec![socios_peix::member::MemberWithInterests { member: m, interests: vec![] }],
        "ÁNGEL PÉ",
        &vec![],
    );
    assert_eq!(found.len(), 1);
    assert!(socios_peix::filters::member_matches_query(&found[0].member, "ángel pérez"));
    assert!(!socios_peix::filters::member_matches_query(&found[0].member, "ÁNGEL"));
}

#[test]
fn joining_and_characters() {
    let items = vec!["Golf".to_string(), "Spa".to_string(), "Vino".to_string()];
    assert_eq!(join_texts(&items, ", "), "Golf, Spa, Vino");
    assert_eq!(join_texts(&vec![], ", "), "");
    assert_eq!(join_texts(&vec!["x".to_string()], ", "), "x");
    assert_eq!(chars_of("año"), vec!['a', 'ñ', 'o']);
}

#[test]
fn dates_print_like_strftime() {
    let d = Date { year: 2024, month: 3, day: 7 };
    assert_eq!(format_dmy(&d), "07-03-2024");
    assert_eq!(format_ymd(&d), "2024-03-07");
    assert_eq!(format_year(5), "0005");
    assert_eq!(format_year(-44), "-0044");
    assert_eq!(format_year(12345), "+12345");
    assert_eq!(format_dmy(&Date { year: 999, month: 12, day: 31 }), "31-12-0999");
}

#[test]
fn missing_dates_show_na() {
    assert_eq!(format_optional_dmy(&None), "N/A");
    assert_eq!(format_optional_dmy(&Some(Date { year: 1990, month: 11, day: 2 })), "02-11-1990");
    let t = DateTime { date: Date { year: 2025, month: 1, day: 31 }, hour: 23, minute: 59, second: 0 };
    assert_eq!(format_optional_datetime_dmy(&Some(t)), "31-01-2025");
    assert_eq!(format_optional_datetime_dmy(&None), "N/A");
}

#[test]
fn date_inputs_are_read_as_dates() {
    assert_eq!(parse_date_input("2024-02-29"), Some(Date { year: 2024, month: 2, day: 29 }));
    assert_eq!(parse_date_input("2023-02-29"), None);
    assert_eq!(parse_date_input(""), None);
    assert_eq!(parse_date_input("29-02-2024"), None);
}

#[test]
fn choice_values_are_read_as_ids() {
    assert_eq!(parse_id_input("12"), Some(12));
    assert_eq!(parse_id_input("+12"), Some(12));
    assert_eq!(parse_id_input("-7"), Some(-7));
    assert_eq!(parse_id_input(""), None);
    assert_eq!(parse_id_input("-"), None);
    assert_eq!(parse_id_input(" 1"), None);
    assert_eq!(parse_id_input("2147483648"), None);
    assert_eq!(parse_id_input("-2147483648"), Some(i32::MIN));
    assert_eq!(gender_choice(Gender::Male, "2"), Gender::Female);
    assert_eq!(gender_choice(Gender::Female, "9"), Gender::Male);
    assert_eq!(gender_choice(Gender::Other, "x"), Gender::Other);
    assert_eq!(id_choice(5, "8"), 8);
    assert_eq!(id_choice(5, "ocho"), 5);
}
