use socios_peix::dates::{Date, DateTime};
use socios_peix::excel::{
    encode_workbook_bytes, generate_members_excel, header_cells, interest_names, member_cells, members_sheet, CellStyle,
    SheetCell,
};
use socios_peix::gender::Gender;
use socios_peix::interest::Interest;
use socios_peix::member::{Member, MemberWithInterests};

fn sample(id: Option<i32>, birth_year: i32) -> MemberWithInterests {
    MemberWithInterests {
        member: Member {
            id,
            name: "Ana".to_string(),
            surname: "Pérez".to_string(),
            second_surname: "Gil".to_string(),
            email: "ana@x.com".to_string(),
            birthdate: Some(Date { year: birth_year, month: 2, day: 28 }),
            phone: "600".to_string(),
            country_id: 34,
            country: "España".to_string(),
            gender: Gender::Female,
            notes: "nota".to_string(),
            created_at: Some(DateTime { date: Date { year: 2024, month: 5, day: 6 }, hour: 1, minute: 2, second: 3 }),
            updated_at: None,
        },
        interests: vec![
            Interest { id: Some(1), name: "Golf".to_string(), ..Default::default() },
            Interest { id: Some(2), name: "Spa".to_string(), ..Default::default() },
        ],
    }
}

fn text(c: &SheetCell) -> String {
    match c {
        SheetCell::Text(t) => t.clone(),
        SheetCell::StyledText(t, _) => t.clone(),
        _ => panic!("expected a text cell"),
    }
}

#[test]
fn header_row_is_bold_titles() {
    let h = header_cells();
    assert_eq!(h.len(), 13);
    assert!(matches!(&h[0], SheetCell::StyledText(t, CellStyle::Bold) if t == "ID"));
    assert_eq!(text(&h[4]), "Correo Electrónico");
    assert_eq!(text(&h[12]), "Actualizado en");
}

#[test]
fn member_row_cells() {
    let cells = member_cells(&sample(Some(8), 1985));
    assert_eq!(cells.len(), 13);
    assert!(matches!(cells[0], SheetCell::Number(8)));
    assert_eq!(text(&cells[1]), "Ana");
    assert_eq!(text(&cells[3]), "Gil");
    assert!(matches!(cells[5], SheetCell::Date(1985, 2, 28)));
    assert_eq!(text(&cells[7]), "España");
    assert_eq!(text(&cells[8]), "Mujer");
    assert!(matches!(&cells[10], SheetCell::StyledText(t, CellStyle::Wrap) if t == "Golf, Spa"));
    assert!(matches!(cells[11], SheetCell::Date(2024, 5, 6)));
    assert!(matches!(&cells[12], SheetCell::Text(t) if t.is_empty()));
    let no_id = member_cells(&sample(None, -5));
    assert!(matches!(no_id[0], SheetCell::Number(0)));
    assert!(matches!(no_id[5], SheetCell::Date(0, 2, 28)));
}

#[test]
fn sheet_has_a_row_per_member() {
    let model = vec![sample(Some(1), 1980), sample(Some(2), 1990)];
    let grid = members_sheet(&model);
    assert_eq!(grid.len(), 3);
    assert!(matches!(grid[2][0], SheetCell::Number(2)));
    assert_eq!(interest_names(&vec![]), "");
}

#[test]
fn workbook_bytes_are_sent_as_base64() {
    assert_eq!(encode_workbook_bytes(Ok(b"Man".to_vec())).unwrap(), "TWFu");
    assert_eq!(encode_workbook_bytes(Ok(b"Ma".to_vec())).unwrap(), "TWE=");
    assert_eq!(encode_workbook_bytes(Ok(b"M".to_vec())).unwrap(), "TQ==");
    assert_eq!(encode_workbook_bytes(Ok(vec![0xfb, 0xff])).unwrap(), "+/8=");
    assert_eq!(encode_workbook_bytes(Ok(vec![])).unwrap(), "");
    assert_eq!(encode_workbook_bytes(Err("disk".to_string())).unwrap_err(), "Error: disk");
}

#[test]
fn export_makes_an_xlsx_file() {
    let out = generate_members_excel(vec![sample(Some(1), 1980), sample(None, 2001)]).unwrap();
    assert!(out.starts_with("UEsDB"));
    let empty = generate_members_excel(vec![]).unwrap();
    assert!(empty.starts_with("UEsDB"));
}

#[test]
fn export_refuses_dates_outside_excel() {
    assert!(generate_members_excel(vec![sample(Some(1), 1850)]).is_err());
    assert!(generate_members_excel(vec![sample(Some(1), 10000)]).is_err());
    assert!(generate_members_excel(vec![sample(Some(1), 1900)]).is_ok());
}

#[test]
fn export_refuses_overlong_text() {
    let mut m = sample(Some(1), 1980);
    m.member.notes = "x".repeat(32_768);
    assert!(generate_members_excel(vec![m.clone()]).is_err());
    m.member.notes = "x".repeat(32_767);
    assert!(generate_members_excel(vec![m]).is_ok());
}
