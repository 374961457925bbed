//! The member export: an Excel workbook of the listed members, sent as
//! base64 text.
use vstd::prelude::*;
use base64::Engine;
use rust_xlsxwriter::{ExcelDateTime, Format, Workbook, Worksheet, XlsxError};
use crate::dates::{Date, date_of, is_leap_year};
use crate::gender::gender_label;
use crate::interest::Interest;
use crate::member::MemberWithInterests;
use crate::passwords::has_prefix;
use crate::text::{join_texts, joined};

verus! {

#[verifier::external_type_specification]
#[verifier::external_body]
pub struct ExWorkbook(Workbook);

#[verifier::external_type_specification]
#[verifier::external_body]
pub struct ExWorksheet(Worksheet);

#[verifier::external_type_specification]
#[verifier::external_body]
pub struct ExFormat(Format);

#[verifier::external_type_specification]
#[verifier::external_body]
pub struct ExXlsxError(XlsxError);

// ----- What the spreadsheet library accepts -----

/// The number of UTF-16 code units of a text.
pub open spec fn utf16_len(s: Seq<char>) -> nat
    decreases s.len(),
{
    if s.len() == 0 {
        0
    } else {
        utf16_len(s.drop_last()) + if (s.last() as u32) >= 0x10000u32 {
            2nat
        } else {
            1nat
        }
    }
}

/// A cell lies inside Excel's grid of 1,048,576 rows and 16,384 columns.
pub open spec fn in_sheet(row: int, col: int) -> bool {
    0 <= row < 1048576 && 0 <= col < 16384
}

/// Whether a text cell can be written: an empty text without a format is
/// skipped, an empty text with a format is a blank cell, and any other text
/// must be at most 32,767 UTF-16 units long.
pub open spec fn text_cell_fits(row: int, col: int, t: Seq<char>, formatted: bool) -> bool {
    if t.len() == 0 {
        formatted ==> in_sheet(row, col)
    } else {
        in_sheet(row, col) && utf16_len(t) <= 32767
    }
}

/// The days of a month as Excel counts them (it takes 1900 for a leap year).
pub open spec fn excel_days_in_month(y: int, m: int) -> int {
    if m == 2 {
        if is_leap_year(y) || y == 1900 {
            29
        } else {
            28
        }
    } else if m == 4 || m == 6 || m == 9 || m == 11 {
        30
    } else {
        31
    }
}

/// Whether Excel can hold the date: years 1900 to 9999 (and its epoch,
/// 1899-12-31), months 1 to 12, and a day of the month.
pub open spec fn excel_date_valid(y: int, m: int, d: int) -> bool {
    &&& (1900 <= y <= 9999 || (y == 1899 && m == 12 && d == 31))
    &&& 1 <= m <= 12
    &&& 1 <= d <= excel_days_in_month(y, m)
}

/// The base64 digit of a value below 64 (standard alphabet).
pub open spec fn base64_digit(v: int) -> char {
    if v < 26 {
        (65 + v) as char
    } else if v < 52 {
        (97 + v - 26) as char
    } else if v < 62 {
        (48 + v - 52) as char
    } else if v == 62 {
        '+'
    } else {
        '/'
    }
}

/// Standard base64 (RFC 4648 alphabet, `=` padding) of the bytes.
pub open spec fn base64_standard(b: Seq<u8>) -> Seq<char>
    decreases b.len(),
{
    if b.len() == 0 {
        Seq::empty()
    } else if b.len() == 1 {
        seq![base64_digit(b[0] as int / 4), base64_digit((b[0] as int % 4) * 16), '=', '=']
    } else if b.len() == 2 {
        seq![
            base64_digit(b[0] as int / 4),
            base64_digit((b[0] as int % 4) * 16 + b[1] as int / 16),
            base64_digit((b[1] as int % 16) * 4),
            '=',
        ]
    } else {
        seq![
            base64_digit(b[0] as int / 4),
            base64_digit((b[0] as int % 4) * 16 + b[1] as int / 16),
            base64_digit((b[1] as int % 16) * 4 + b[2] as int / 64),
            base64_digit(b[2] as int % 64),
        ] + base64_standard(b.skip(3))
    }
}

// ----- What a workbook holds -----

/// What a cell holds.
pub enum CellContent {
    Number(int),
    Text(Seq<char>),
    /// A date (year, month, day), stored as Excel's serial number of that day.
    Date(int, int, int),
    /// A blank cell that only carries a format.
    Blank,
}

/// A property a cell format sets.
pub enum FormatFeature {
    Bold,
    TextWrap,
    /// The number format, e.g. `dd/mm/yyyy`.
    NumFormat(Seq<char>),
}

/// A cell: what it holds and the properties of the format given with it
/// (none for a cell written without a format).
pub struct SheetEntry {
    pub content: CellContent,
    pub format: Set<FormatFeature>,
}

/// The properties a `Format` sets (a number format only when it is not
/// the default, empty one).
pub uninterp spec fn format_features(f: Format) -> Set<FormatFeature>;

/// The cells a `Worksheet` holds, by (row, column).
pub uninterp spec fn sheet_cells(ws: Worksheet) -> Map<(int, int), SheetEntry>;

/// The cells of each sheet a `Workbook` holds, in order.
pub uninterp spec fn workbook_sheets(wb: Workbook) -> Seq<Map<(int, int), SheetEntry>>;

/// A sheet with no cell.
pub open spec fn no_cells() -> Map<(int, int), SheetEntry> {
    Map::empty()
}

/// A workbook with no sheet.
pub open spec fn no_sheets() -> Seq<Map<(int, int), SheetEntry>> {
    Seq::empty()
}

/// A cell holding a number, with no format of its own.
pub open spec fn number_entry(n: int) -> SheetEntry {
    SheetEntry { content: CellContent::Number(n), format: Set::empty() }
}

/// A cell holding a date, with a format.
pub open spec fn date_cell_entry(y: int, m: int, d: int, f: Set<FormatFeature>) -> SheetEntry {
    SheetEntry { content: CellContent::Date(y, m, d), format: f }
}

/// `m` with the entry `e` at `k`, when there is one.
pub open spec fn put(m: Map<(int, int), SheetEntry>, k: (int, int), e: Option<SheetEntry>) -> Map<(int, int), SheetEntry> {
    match e {
        Some(x) => m.insert(k, x),
        None => m,
    }
}

/// The entry an unformatted text leaves: none for an empty text.
pub open spec fn text_entry(t: Seq<char>) -> Option<SheetEntry> {
    if t.len() == 0 {
        None
    } else {
        Some(SheetEntry { content: CellContent::Text(t), format: Set::empty() })
    }
}

/// The entry a text written with a format leaves: a blank cell for an
/// empty text.
pub open spec fn styled_entry(t: Seq<char>, f: Set<FormatFeature>) -> Option<SheetEntry> {
    Some(
        SheetEntry {
            content: if t.len() == 0 {
                CellContent::Blank
            } else {
                CellContent::Text(t)
            },
            format: f,
        },
    )
}

// ----- Calls into the spreadsheet and base64 libraries -----

/// Calls `Workbook::new`. Claims: a new workbook has no sheet.
#[verifier::external_body]
fn new_workbook() -> (r: Workbook)
    ensures
        workbook_sheets(r) == no_sheets(),
{
    Workbook::new()
}

/// Calls `Workbook::add_worksheet`: the workbook's next sheet, to write
/// into. Claims: the sheet starts empty and the workbook ends with it
/// added after its other sheets (it lives in the workbook).
#[verifier::external_body]
fn add_worksheet<'a>(wb: &'a mut Workbook) -> (r: &'a mut Worksheet)
    ensures
        sheet_cells(*r) == no_cells(),
        workbook_sheets(*final(wb)) == workbook_sheets(*old(wb)).push(sheet_cells(*final(r))),
{
    wb.add_worksheet()
}

/// Calls `Format::new`. Claims: the default format sets no property.
#[verifier::external_body]
fn new_format() -> (r: Format)
    ensures
        format_features(r) == Set::<FormatFeature>::empty(),
{
    Format::new()
}

/// Calls `Format::set_bold`. Claims: it adds bold.
#[verifier::external_body]
fn set_bold(f: Format) -> (r: Format)
    ensures
        format_features(r) == format_features(f).insert(FormatFeature::Bold),
{
    f.set_bold()
}

/// Calls `Format::set_text_wrap`. Claims: it adds text wrapping.
#[verifier::external_body]
fn set_text_wrap(f: Format) -> (r: Format)
    ensures
        format_features(r) == format_features(f).insert(FormatFeature::TextWrap),
{
    f.set_text_wrap()
}

/// Calls `Format::set_num_format`. Claims: the number format becomes
/// `num_format` (an empty text is the default, general format, as in
/// `Format::new`), the other properties stay.
#[verifier::external_body]
fn set_num_format(f: Format, num_format: &str) -> (r: Format)
    ensures
        num_format@.len() > 0 ==> format_features(r) == format_features(f).filter(
            |x: FormatFeature| !(x is NumFormat),
        ).insert(FormatFeature::NumFormat(num_format@)),
        num_format@.len() == 0 ==> format_features(r) == format_features(f).filter(
            |x: FormatFeature| !(x is NumFormat),
        ),
{
    f.set_num_format(num_format)
}

/// Calls `Worksheet::write_number` with an integer. Claims what its source
/// shows: it fails exactly when the cell lies outside the sheet, leaving
/// the cells as they were; otherwise the cell holds the number, with no
/// format of its own (this library sets no row or column formats).
#[verifier::external_body]
fn write_number(ws: &mut Worksheet, row: u32, col: u16, n: i32) -> (r: Result<(), XlsxError>)
    ensures
        r is Ok <==> in_sheet(row as int, col as int),
        r is Ok ==> sheet_cells(*final(ws)) == sheet_cells(*old(ws)).insert((row as int, col as int), number_entry(n as int)),
        r is Err ==> sheet_cells(*final(ws)) == sheet_cells(*old(ws)),
{
    match ws.write_number(row, col, n) {
        Ok(_) => Ok(()),
        Err(e) => Err(e),
    }
}

/// Calls `Worksheet::write_string`. Claims what its source shows: an empty
/// text is skipped, and another text fails exactly when the cell lies
/// outside the sheet or the text is longer than 32,767 UTF-16 units,
/// leaving the cells as they were; otherwise the cell holds the text, with
/// no format of its own.
#[verifier::external_body]
fn write_string(ws: &mut Worksheet, row: u32, col: u16, t: &str) -> (r: Result<(), XlsxError>)
    ensures
        r is Ok <==> text_cell_fits(row as int, col as int, t@, false),
        r is Ok ==> sheet_cells(*final(ws)) == put(sheet_cells(*old(ws)), (row as int, col as int), text_entry(t@)),
        r is Err ==> sheet_cells(*final(ws)) == sheet_cells(*old(ws)),
{
    match ws.write_string(row, col, t) {
        Ok(_) => Ok(()),
        Err(e) => Err(e),
    }
}

/// Calls `Worksheet::write_string_with_format`. Claims what its source
/// shows: an empty text is written as a blank cell, and the call fails
/// exactly when the cell lies outside the sheet or a text is longer than
/// 32,767 UTF-16 units, leaving the cells as they were; otherwise the cell
/// holds the text (or is blank) with the format.
#[verifier::external_body]
fn write_string_with_format(ws: &mut Worksheet, row: u32, col: u16, t: &str, f: &Format) -> (r: Result<(), XlsxError>)
    ensures
        r is Ok <==> text_cell_fits(row as int, col as int, t@, true),
        r is Ok ==> sheet_cells(*final(ws)) == put(
            sheet_cells(*old(ws)),
            (row as int, col as int),
            styled_entry(t@, format_features(*f)),
        ),
        r is Err ==> sheet_cells(*final(ws)) == sheet_cells(*old(ws)),
{
    match ws.write_string_with_format(row, col, t, f) {
        Ok(_) => Ok(()),
        Err(e) => Err(e),
    }
}

/// Calls `ExcelDateTime::from_ymd` (its error is passed on) and writes the
/// date with `Worksheet::write_datetime_with_format`. Claims what their
/// source shows: it fails exactly when Excel cannot hold the date or the
/// cell lies outside the sheet, leaving the cells as they were; otherwise
/// the cell holds the date with the format.
#[verifier::external_body]
fn write_date_with_format(ws: &mut Worksheet, row: u32, col: u16, year: u16, month: u8, day: u8, f: &Format) -> (r: Result<(), XlsxError>)
    ensures
        r is Ok <==> (excel_date_valid(year as int, month as int, day as int) && in_sheet(row as int, col as int)),
        r is Ok ==> sheet_cells(*final(ws)) == sheet_cells(*old(ws)).insert(
            (row as int, col as int),
            date_cell_entry(year as int, month as int, day as int, format_features(*f)),
        ),
        r is Err ==> sheet_cells(*final(ws)) == sheet_cells(*old(ws)),
{
    match ExcelDateTime::from_ymd(year, month, day) {
        Ok(d) => match ws.write_datetime_with_format(row, col, &d, f) {
            Ok(_) => Ok(()),
            Err(e) => Err(e),
        },
        Err(e) => Err(e),
    }
}

/// Calls `Worksheet::set_column_width`. Claims what its source shows: a
/// width of one or more fails exactly for a column outside the sheet, and
/// the cells stay as they are.
#[verifier::external_body]
fn set_column_width(ws: &mut Worksheet, col: u16, width: u16) -> (r: Result<(), XlsxError>)
    ensures
        width >= 1 ==> (r is Ok <==> col < 16384),
        sheet_cells(*final(ws)) == sheet_cells(*old(ws)),
{
    match ws.set_column_width(col, width) {
        Ok(_) => Ok(()),
        Err(e) => Err(e),
    }
}

/// Calls `Workbook::save_to_buffer`. The file holds the time it was made,
/// and writing it may fail: nothing is stated of the result.
#[verifier::external_body]
fn save_to_buffer(wb: &mut Workbook) -> Result<Vec<u8>, XlsxError> {
    wb.save_to_buffer()
}

/// Calls `to_string` (its `Display`) on a spreadsheet error. Nothing is
/// stated of the text.
#[verifier::external_body]
fn xlsx_error_text(e: &XlsxError) -> String {
    e.to_string()
}

/// Calls `Engine::encode` of `base64::engine::general_purpose::STANDARD`.
/// Claims what its documentation says: the standard base64 of the bytes.
#[verifier::external_body]
fn base64_encode(bytes: &Vec<u8>) -> (r: String)
    ensures
        r@ == base64_standard(bytes@),
{
    base64::engine::general_purpose::STANDARD.encode(bytes)
}

// ----- The sheet of members -----

/// How a text cell is formatted.
#[derive(Debug, Clone, Copy, PartialEq, Eq, Structural)]
pub enum CellStyle {
    Bold,
    Wrap,
}

/// A cell of the export: an unformatted number or text, a formatted text,
/// or a date shown as `dd/mm/yyyy`.
#[derive(Debug, Clone)]
pub enum SheetCell {
    Number(i32),
    Text(String),
    StyledText(String, CellStyle),
    Date(u16, u8, u8),
}

/// The column titles of the export.
pub open spec fn header_names() -> Seq<Seq<char>> {
    seq![
        "ID"@,
        "Nombre"@,
        "Primer Apellido"@,
        "Segundo Apellido"@,
        "Correo Electrónico"@,
        "Fecha de Nacimiento"@,
        "Teléfono"@,
        "País"@,
        "Género"@,
        "Notas"@,
        "Intereses"@,
        "Creado en"@,
        "Actualizado en"@,
    ]
}

/// The year Excel is given: the year when it fits in 16 bits, else 0.
pub open spec fn excel_year(y: i32) -> u16 {
    if 0 <= y <= 65535 {
        y as u16
    } else {
        0u16
    }
}

/// The member's id, or 0 when there is none.
pub open spec fn id_or_zero(id: Option<i32>) -> i32 {
    match id {
        Some(x) => x,
        None => 0i32,
    }
}

/// The names of the interests, separated by `, `.
pub open spec fn interest_names_text(interests: Seq<Interest>) -> Seq<char> {
    joined(interests.map_values(|i: Interest| i.name@), ", "@)
}

/// The cell is unformatted text `t`.
pub open spec fn is_text(c: SheetCell, t: Seq<char>) -> bool {
    c matches SheetCell::Text(s) && s@ == t
}

/// The cell shows an optional date: the date, or an empty text.
pub open spec fn shows_date(c: SheetCell, d: Option<Date>) -> bool {
    match d {
        Some(x) => c matches SheetCell::Date(y, m, dd) && y == excel_year(x.year) && m == x.month as u8
            && dd == x.day as u8,
        None => is_text(c, Seq::empty()),
    }
}

/// The header row: the column titles in bold.
pub open spec fn shows_header(cells: Seq<SheetCell>) -> bool {
    &&& cells.len() == 13
    &&& forall|j: int| 0 <= j < 13 ==> (#[trigger] cells[j] matches SheetCell::StyledText(t, CellStyle::Bold)
        && t@ == header_names()[j])
}

/// The row of a member: id, name, surnames, e-mail, birth date, phone,
/// country, gender, notes, interests (wrapped), and the dates it was
/// created and updated.
pub open spec fn shows_member_cells(cells: Seq<SheetCell>, mw: MemberWithInterests) -> bool {
    let m = mw.member;
    &&& cells.len() == 13
    &&& cells[0] matches SheetCell::Number(n) && n == id_or_zero(m.id)
    &&& is_text(cells[1], m.name@)
    &&& is_text(cells[2], m.surname@)
    &&& is_text(cells[3], m.second_surname@)
    &&& is_text(cells[4], m.email@)
    &&& shows_date(cells[5], m.birthdate)
    &&& is_text(cells[6], m.phone@)
    &&& is_text(cells[7], m.country@)
    &&& is_text(cells[8], gender_label(m.gender))
    &&& is_text(cells[9], m.notes@)
    &&& cells[10] matches SheetCell::StyledText(t, CellStyle::Wrap) && t@ == interest_names_text(mw.interests@)
    &&& shows_date(cells[11], date_of(m.created_at))
    &&& shows_date(cells[12], date_of(m.updated_at))
}

fn bold(t: &str) -> (c: SheetCell)
    ensures
        c matches SheetCell::StyledText(s, CellStyle::Bold) && s@ == t@,
{
    SheetCell::StyledText(String::from_str(t), CellStyle::Bold)
}

/// The header row of the export.
pub fn header_cells() -> (r: Vec<SheetCell>)
    ensures
        shows_header(r@),
{
    let mut v: Vec<SheetCell> = Vec::new();
    v.push(bold("ID"));
    v.push(bold("Nombre"));
    v.push(bold("Primer Apellido"));
    v.push(bold("Segundo Apellido"));
    v.push(bold("Correo Electrónico"));
    v.push(bold("Fecha de Nacimiento"));
    v.push(bold("Teléfono"));
    v.push(bold("País"));
    v.push(bold("Género"));
    v.push(bold("Notas"));
    v.push(bold("Intereses"));
    v.push(bold("Creado en"));
    v.push(bold("Actualizado en"));
    assert forall|j: int| 0 <= j < 13 implies (#[trigger] v@[j] matches SheetCell::StyledText(t, CellStyle::Bold)
        && t@ == header_names()[j]) by {
        if j == 0 {
        } else if j == 1 {
        } else if j == 2 {
        } else if j == 3 {
        } else if j == 4 {
        } else if j == 5 {
        } else if j == 6 {
        } else if j == 7 {
        } else if j == 8 {
        } else if j == 9 {
        } else if j == 10 {
        } else if j == 11 {
        } else {
        }
    }
    v
}

fn year_for_excel(y: i32) -> (r: u16)
    ensures
        r == excel_year(y),
{
    if 0 <= y && y <= 65535 {
        y as u16
    } else {
        0
    }
}

fn date_cell(d: &Option<Date>) -> (c: SheetCell)
    ensures
        shows_date(c, *d),
{
    match d {
        Some(x) => SheetCell::Date(year_for_excel(x.year), x.month as u8, x.day as u8),
        None => SheetCell::Text(String::new()),
    }
}

/// The names of the interests joined by `, `.
pub fn interest_names(interests: &Vec<Interest>) -> (r: String)
    ensures
        r@ == interest_names_text(interests@),
{
    let mut names: Vec<String> = Vec::new();
    let mut k: usize = 0;
    while k < interests.len()
        invariant
            k <= interests@.len(),
            names@.len() == k,
            forall|j: int| 0 <= j < k ==> #[trigger] names@[j]@ == interests@[j].name@,
        decreases interests@.len() - k,
    {
        names.push(interests[k].name.clone());
        k = k + 1;
    }
    let r = join_texts(&names, ", ");
    assert(names@.map_values(|s: String| s@) =~= interests@.map_values(|i: Interest| i.name@));
    r
}

/// The row of one member.
pub fn member_cells(mw: &MemberWithInterests) -> (r: Vec<SheetCell>)
    ensures
        shows_member_cells(r@, *mw),
{
    let m = &mw.member;
    let id: i32 = match m.id {
        Some(x) => x,
        None => 0,
    };
    let mut v: Vec<SheetCell> = Vec::new();
    v.push(SheetCell::Number(id));
    v.push(SheetCell::Text(m.name.clone()));
    v.push(SheetCell::Text(m.surname.clone()));
    v.push(SheetCell::Text(m.second_surname.clone()));
    v.push(SheetCell::Text(m.email.clone()));
    v.push(date_cell(&m.birthdate));
    v.push(SheetCell::Text(m.phone.clone()));
    v.push(SheetCell::Text(m.country.clone()));
    v.push(SheetCell::Text(String::from_str(m.gender.label())));
    v.push(SheetCell::Text(m.notes.clone()));
    v.push(SheetCell::StyledText(interest_names(&mw.interests), CellStyle::Wrap));
    let created = match m.created_at {
        Some(t) => Some(t.date),
        None => None,
    };
    v.push(date_cell(&created));
    let updated = match m.updated_at {
        Some(t) => Some(t.date),
        None => None,
    };
    v.push(date_cell(&updated));
    v
}

/// The export's rows: the header, then a row for each member in order.
pub fn members_sheet(model: &Vec<MemberWithInterests>) -> (r: Vec<Vec<SheetCell>>)
    ensures
        r@.len() == model@.len() + 1,
        shows_header(r@[0]@),
        forall|i: int| 0 <= i < model@.len() ==> shows_member_cells(#[trigger] r@[i + 1]@, model@[i]),
{
    let mut rows: Vec<Vec<SheetCell>> = Vec::new();
    rows.push(header_cells());
    let mut i: usize = 0;
    while i < model.len()
        invariant
            i <= model@.len(),
            rows@.len() == i + 1,
            shows_header(rows@[0]@),
            forall|k: int| 0 <= k < i ==> shows_member_cells(#[trigger] rows@[k + 1]@, model@[k]),
        decreases model@.len() - i,
    {
        rows.push(member_cells(&model[i]));
        i = i + 1;
    }
    rows
}

// ----- Writing the sheet -----

/// The formats the export uses.
struct SheetFormats {
    bold: Format,
    date: Format,
    wrap: Format,
}

/// The number format of the date cells.
pub open spec fn date_features() -> Set<FormatFeature> {
    set![FormatFeature::NumFormat("dd/mm/yyyy"@)]
}

/// The formats are bold, day/month/year dates and wrapped text.
spec fn formats_ready(f: SheetFormats) -> bool {
    &&& format_features(f.bold) == set![FormatFeature::Bold]
    &&& format_features(f.date) == date_features()
    &&& format_features(f.wrap) == set![FormatFeature::TextWrap]
}

fn sheet_formats() -> (f: SheetFormats)
    ensures
        formats_ready(f),
{
    proof {
        reveal_strlit("dd/mm/yyyy");
    }
    let f = SheetFormats {
        bold: set_bold(new_format()),
        date: set_num_format(new_format(), "dd/mm/yyyy"),
        wrap: set_text_wrap(new_format()),
    };
    assert(format_features(f.bold) =~= set![FormatFeature::Bold]);
    assert(format_features(f.date) =~= date_features());
    assert(format_features(f.wrap) =~= set![FormatFeature::TextWrap]);
    f
}

/// Whether the spreadsheet library accepts the cell at `(row, col)`.
pub open spec fn cell_writable(c: SheetCell, row: int, col: int) -> bool {
    match c {
        SheetCell::Number(_) => in_sheet(row, col),
        SheetCell::Text(t) => text_cell_fits(row, col, t@, false),
        SheetCell::StyledText(t, _) => text_cell_fits(row, col, t@, true),
        SheetCell::Date(y, m, d) => excel_date_valid(y as int, m as int, d as int) && in_sheet(row, col),
    }
}

/// What writing the cell leaves in the sheet (nothing for an empty
/// unformatted text).
pub open spec fn cell_entry(c: SheetCell) -> Option<SheetEntry> {
    match c {
        SheetCell::Number(n) => Some(SheetEntry { content: CellContent::Number(n as int), format: Set::empty() }),
        SheetCell::Text(t) => text_entry(t@),
        SheetCell::StyledText(t, CellStyle::Bold) => styled_entry(t@, set![FormatFeature::Bold]),
        SheetCell::StyledText(t, CellStyle::Wrap) => styled_entry(t@, set![FormatFeature::TextWrap]),
        SheetCell::Date(y, m, d) => Some(
            SheetEntry { content: CellContent::Date(y as int, m as int, d as int), format: date_features() },
        ),
    }
}

fn write_cell(ws: &mut Worksheet, row: u32, col: u16, cell: &SheetCell, formats: &SheetFormats) -> (r: Result<(), XlsxError>)
    requires
        formats_ready(*formats),
    ensures
        r is Ok <==> cell_writable(*cell, row as int, col as int),
        r is Ok ==> sheet_cells(*final(ws)) == put(sheet_cells(*old(ws)), (row as int, col as int), cell_entry(*cell)),
{
    match cell {
        SheetCell::Number(n) => write_number(ws, row, col, *n),
        SheetCell::Text(t) => write_string(ws, row, col, t.as_str()),
        SheetCell::StyledText(t, CellStyle::Bold) => write_string_with_format(ws, row, col, t.as_str(), &formats.bold),
        SheetCell::StyledText(t, CellStyle::Wrap) => write_string_with_format(ws, row, col, t.as_str(), &formats.wrap),
        SheetCell::Date(y, m, d) => write_date_with_format(ws, row, col, *y, *m, *d, &formats.date),
    }
}

/// The sheet `m` after writing the first `n` cells of a row.
pub open spec fn row_put(m: Map<(int, int), SheetEntry>, cells: Seq<SheetCell>, row: int, n: int) -> Map<(int, int), SheetEntry>
    decreases n,
{
    if n <= 0 {
        m
    } else {
        put(row_put(m, cells, row, n - 1), (row, n - 1), cell_entry(cells[n - 1]))
    }
}

/// Writes a row of cells from the first column on, stopping at the first
/// cell the library refuses.
fn write_row(ws: &mut Worksheet, row: u32, cells: &Vec<SheetCell>, formats: &SheetFormats) -> (r: Result<(), XlsxError>)
    requires
        cells@.len() <= 16384,
        formats_ready(*formats),
    ensures
        r is Ok <==> forall|j: int| 0 <= j < cells@.len() ==> cell_writable(#[trigger] cells@[j], row as int, j),
        r is Ok ==> sheet_cells(*final(ws)) == row_put(sheet_cells(*old(ws)), cells@, row as int, cells@.len() as int),
{
    let ghost start = sheet_cells(*ws);
    let mut j: usize = 0;
    while j < cells.len()
        invariant
            j <= cells@.len(),
            cells@.len() <= 16384,
            formats_ready(*formats),
            forall|k: int| 0 <= k < j ==> cell_writable(#[trigger] cells@[k], row as int, k),
            sheet_cells(*ws) == row_put(start, cells@, row as int, j as int),
        decreases cells@.len() - j,
    {
        match write_cell(ws, row, j as u16, &cells[j], formats) {
            Ok(()) => {},
            Err(e) => {
                return Err(e);
            },
        }
        j = j + 1;
    }
    Ok(())
}

/// What the export's sheet holds at a row of the header.
pub open spec fn header_entry(col: int) -> Option<SheetEntry> {
    if 0 <= col < 13 {
        styled_entry(header_names()[col], set![FormatFeature::Bold])
    } else {
        None
    }
}

/// What the export's sheet holds for an optional date.
pub open spec fn date_entry(d: Option<Date>) -> Option<SheetEntry> {
    match d {
        Some(x) => Some(
            SheetEntry {
                content: CellContent::Date(excel_year(x.year) as int, (x.month as u8) as int, (x.day as u8) as int),
                format: date_features(),
            },
        ),
        None => None,
    }
}

/// What the export's sheet holds in column `col` of a member's row.
pub open spec fn member_entry(mw: MemberWithInterests, col: int) -> Option<SheetEntry> {
    let m = mw.member;
    if col == 0 {
        Some(SheetEntry { content: CellContent::Number(id_or_zero(m.id) as int), format: Set::empty() })
    } else if col == 1 {
        text_entry(m.name@)
    } else if col == 2 {
        text_entry(m.surname@)
    } else if col == 3 {
        text_entry(m.second_surname@)
    } else if col == 4 {
        text_entry(m.email@)
    } else if col == 5 {
        date_entry(m.birthdate)
    } else if col == 6 {
        text_entry(m.phone@)
    } else if col == 7 {
        text_entry(m.country@)
    } else if col == 8 {
        text_entry(gender_label(m.gender))
    } else if col == 9 {
        text_entry(m.notes@)
    } else if col == 10 {
        styled_entry(interest_names_text(mw.interests@), set![FormatFeature::TextWrap])
    } else if col == 11 {
        date_entry(date_of(m.created_at))
    } else if col == 12 {
        date_entry(date_of(m.updated_at))
    } else {
        None
    }
}

/// What the export's sheet holds at `(row, col)`: the header on row 0 and
/// member `k` on row `k + 1`.
pub open spec fn sheet_entry(model: Seq<MemberWithInterests>, k: (int, int)) -> Option<SheetEntry> {
    if k.0 == 0 {
        header_entry(k.1)
    } else if 1 <= k.0 <= model.len() {
        member_entry(model[k.0 - 1], k.1)
    } else {
        None
    }
}

/// The cells of the export's sheet: the bold header row (`ID` ...
/// `Actualizado en`), then a row per member in order — id (0 without one),
/// name, surnames, e-mail, birth date, phone, country, gender, notes, the
/// interests' names joined by `, ` (wrapped), and the dates it was created
/// and updated. Dates are shown `dd/mm/yyyy`; empty texts and missing dates
/// leave no cell.
pub open spec fn members_sheet_cells(model: Seq<MemberWithInterests>) -> Map<(int, int), SheetEntry> {
    Map::new(|k: (int, int)| sheet_entry(model, k) is Some, |k: (int, int)| sheet_entry(model, k)->0)
}

/// The cells of the first `i` rows of the export's sheet, with the first
/// `n` cells of row `i`.
spec fn sheet_prefix(model: Seq<MemberWithInterests>, i: int, n: int) -> Map<(int, int), SheetEntry> {
    Map::new(
        |k: (int, int)| (k.0 < i || (k.0 == i && k.1 < n)) && sheet_entry(model, k) is Some,
        |k: (int, int)| sheet_entry(model, k)->0,
    )
}

proof fn lemma_row_put_prefix(model: Seq<MemberWithInterests>, cells: Seq<SheetCell>, i: int, n: int)
    requires
        0 <= n <= cells.len(),
        forall|j: int| 0 <= j < cells.len() ==> #[trigger] cell_entry(cells[j]) == sheet_entry(model, (i, j)),
    ensures
        row_put(sheet_prefix(model, i, 0), cells, i, n) == sheet_prefix(model, i, n),
    decreases n,
{
    if n <= 0 {
        assert(sheet_prefix(model, i, 0) =~= sheet_prefix(model, i, n));
    } else {
        lemma_row_put_prefix(model, cells, i, n - 1);
        assert(cell_entry(cells[n - 1]) == sheet_entry(model, (i, n - 1)));
        assert(row_put(sheet_prefix(model, i, 0), cells, i, n) =~= sheet_prefix(model, i, n));
    }
}

proof fn lemma_header_entries(cells: Seq<SheetCell>)
    requires
        shows_header(cells),
    ensures
        forall|j: int| 0 <= j < cells.len() ==> #[trigger] cell_entry(cells[j]) == header_entry(j),
{
    assert forall|j: int| 0 <= j < cells.len() implies #[trigger] cell_entry(cells[j]) == header_entry(j) by {
        assert(cells[j] matches SheetCell::StyledText(t, CellStyle::Bold) && t@ == header_names()[j]);
    }
}

proof fn lemma_member_entries(cells: Seq<SheetCell>, mw: MemberWithInterests)
    requires
        shows_member_cells(cells, mw),
    ensures
        forall|j: int| 0 <= j < cells.len() ==> #[trigger] cell_entry(cells[j]) == member_entry(mw, j),
{
    assert forall|j: int| 0 <= j < cells.len() implies #[trigger] cell_entry(cells[j]) == member_entry(mw, j) by {
        if j == 0 {
        } else if j == 1 {
        } else if j == 2 {
        } else if j == 3 {
        } else if j == 4 {
        } else if j == 5 {
        } else if j == 6 {
        } else if j == 7 {
        } else if j == 8 {
        } else if j == 9 {
        } else if j == 10 {
        } else if j == 11 {
        } else {
        }
    }
}

/// Whether a text can stand in a cell: empty, or at most 32,767 UTF-16 units.
pub open spec fn text_fits(t: Seq<char>) -> bool {
    t.len() == 0 || utf16_len(t) <= 32767
}

/// Whether an optional date can stand in a cell.
pub open spec fn date_fits(d: Option<Date>) -> bool {
    match d {
        Some(x) => excel_date_valid(excel_year(x.year) as int, (x.month as u8) as int, (x.day as u8) as int),
        None => true,
    }
}

/// Whether every value of the member's row can stand in a cell.
pub open spec fn member_writable(mw: MemberWithInterests) -> bool {
    let m = mw.member;
    &&& text_fits(m.name@)
    &&& text_fits(m.surname@)
    &&& text_fits(m.second_surname@)
    &&& text_fits(m.email@)
    &&& date_fits(m.birthdate)
    &&& text_fits(m.phone@)
    &&& text_fits(m.country@)
    &&& text_fits(gender_label(m.gender))
    &&& text_fits(m.notes@)
    &&& text_fits(interest_names_text(mw.interests@))
    &&& date_fits(date_of(m.created_at))
    &&& date_fits(date_of(m.updated_at))
}

/// Whether the spreadsheet library accepts the whole export: the members'
/// rows fit in the sheet and every value fits in its cell.
pub open spec fn sheet_writable(model: Seq<MemberWithInterests>) -> bool {
    &&& model.len() < 1048576
    &&& forall|i: int| 0 <= i < model.len() ==> member_writable(#[trigger] model[i])
}

proof fn lemma_written_row(cells: Seq<SheetCell>, mw: MemberWithInterests, row: int)
    requires
        shows_member_cells(cells, mw),
        forall|j: int| 0 <= j < cells.len() ==> cell_writable(#[trigger] cells[j], row, j),
    ensures
        member_writable(mw),
        in_sheet(row, 0),
{
    assert(cell_writable(cells[0], row, 0));
    assert(cell_writable(cells[1], row, 1));
    assert(cell_writable(cells[2], row, 2));
    assert(cell_writable(cells[3], row, 3));
    assert(cell_writable(cells[4], row, 4));
    assert(cell_writable(cells[5], row, 5));
    assert(cell_writable(cells[6], row, 6));
    assert(cell_writable(cells[7], row, 7));
    assert(cell_writable(cells[8], row, 8));
    assert(cell_writable(cells[9], row, 9));
    assert(cell_writable(cells[10], row, 10));
    assert(cell_writable(cells[11], row, 11));
    assert(cell_writable(cells[12], row, 12));
}

proof fn lemma_utf16_len_bound(s: Seq<char>)
    ensures
        utf16_len(s) <= 2 * s.len(),
    decreases s.len(),
{
    if s.len() > 0 {
        lemma_utf16_len_bound(s.drop_last());
    }
}

/// The library accepts the header row.
proof fn lemma_header_writable(cells: Seq<SheetCell>)
    requires
        shows_header(cells),
    ensures
        forall|j: int| 0 <= j < cells.len() ==> cell_writable(#[trigger] cells[j], 0, j),
{
    reveal_strlit("ID");
    reveal_strlit("Nombre");
    reveal_strlit("Primer Apellido");
    reveal_strlit("Segundo Apellido");
    reveal_strlit("Correo Electrónico");
    reveal_strlit("Fecha de Nacimiento");
    reveal_strlit("Teléfono");
    reveal_strlit("País");
    reveal_strlit("Género");
    reveal_strlit("Notas");
    reveal_strlit("Intereses");
    reveal_strlit("Creado en");
    reveal_strlit("Actualizado en");
    assert forall|j: int| 0 <= j < cells.len() implies cell_writable(#[trigger] cells[j], 0, j) by {
        let t = header_names()[j];
        if j == 0 {
        } else if j == 1 {
        } else if j == 2 {
        } else if j == 3 {
        } else if j == 4 {
        } else if j == 5 {
        } else if j == 6 {
        } else if j == 7 {
        } else if j == 8 {
        } else if j == 9 {
        } else if j == 10 {
        } else if j == 11 {
        } else {
        }
        assert(t.len() <= 20);
        lemma_utf16_len_bound(t);
    }
}

/// The library accepts the row of a member whose values fit, on a row of the sheet.
proof fn lemma_member_row_writable(cells: Seq<SheetCell>, mw: MemberWithInterests, row: int)
    requires
        shows_member_cells(cells, mw),
        member_writable(mw),
        0 <= row < 1048576,
    ensures
        forall|j: int| 0 <= j < cells.len() ==> cell_writable(#[trigger] cells[j], row, j),
{
    assert forall|j: int| 0 <= j < cells.len() implies cell_writable(#[trigger] cells[j], row, j) by {
        if j == 0 {
        } else if j == 1 {
        } else if j == 2 {
        } else if j == 3 {
        } else if j == 4 {
        } else if j == 5 {
        } else if j == 6 {
        } else if j == 7 {
        } else if j == 8 {
        } else if j == 9 {
        } else if j == 10 {
        } else if j == 11 {
        } else {
        }
    }
}

/// The answer to an export once the workbook was saved: the base64 text of
/// the file, or `Error: <reason>`.
pub fn encode_workbook_bytes(saved: Result<Vec<u8>, String>) -> (r: Result<String, String>)
    ensures
        saved matches Ok(b) ==> (r matches Ok(s) && s@ == base64_standard(b@)),
        saved matches Err(t) ==> (r matches Err(m) && m@ == "Error: "@ + t@),
{
    match saved {
        Ok(b) => Ok(base64_encode(&b)),
        Err(t) => {
            let mut m = String::from_str("Error: ");
            m.append(t.as_str());
            Err(m)
        },
    }
}

/// Writes the export's rows into an empty sheet, stopping at the first
/// cell the library refuses, and sets the thirteen columns 20 wide.
fn fill_sheet(
    ws: &mut Worksheet,
    model: &Vec<MemberWithInterests>,
    grid: &Vec<Vec<SheetCell>>,
    formats: &SheetFormats,
) -> (r: Result<(), XlsxError>)
    requires
        grid@.len() == model@.len() + 1,
        shows_header(grid@[0]@),
        forall|k: int| 0 <= k < model@.len() ==> shows_member_cells(#[trigger] grid@[k + 1]@, model@[k]),
        formats_ready(*formats),
        sheet_cells(*old(ws)) == no_cells(),
    ensures
        r is Ok ==> sheet_writable(model@) && sheet_cells(*final(ws)) == members_sheet_cells(model@),
        sheet_writable(model@) ==> r is Ok,
{
    assert(sheet_cells(*ws) =~= sheet_prefix(model@, 0, 0));
    let mut i: usize = 0;
    while i < grid.len()
        invariant
            i <= grid@.len(),
            i <= 1048576,
            grid@.len() == model@.len() + 1,
            shows_header(grid@[0]@),
            forall|k: int| 0 <= k < model@.len() ==> shows_member_cells(#[trigger] grid@[k + 1]@, model@[k]),
            forall|k: int| 1 <= k < i ==> in_sheet(k, 0) && member_writable(#[trigger] model@[k - 1]),
            formats_ready(*formats),
            sheet_cells(*ws) == sheet_prefix(model@, i as int, 0),
        decreases grid@.len() - i,
    {
        let row: u32 = i as u32;
        let ghost cells = grid@[i as int]@;
        proof {
            if i == 0 {
                assert(cells.len() == 13);
            } else {
                assert(shows_member_cells(grid@[(i - 1) + 1]@, model@[i - 1]));
            }
        }
        match write_row(ws, row, &grid[i], formats) {
            Ok(()) => {},
            Err(e) => {
                proof {
                    if sheet_writable(model@) {
                        if i == 0 {
                            lemma_header_writable(cells);
                        } else {
                            lemma_member_row_writable(cells, model@[i - 1], i as int);
                        }
                    }
                }
                return Err(e);
            },
        }
        proof {
            if i == 0 {
                lemma_header_entries(cells);
            } else {
                lemma_written_row(cells, model@[i - 1], i as int);
                lemma_member_entries(cells, model@[i - 1]);
            }
            assert forall|j: int| 0 <= j < cells.len() implies #[trigger] cell_entry(cells[j]) == sheet_entry(
                model@,
                (i as int, j),
            ) by {
                if i == 0 {
                    assert(cell_entry(cells[j]) == header_entry(j));
                } else {
                    assert(cell_entry(cells[j]) == member_entry(model@[i - 1], j));
                }
            }
            lemma_row_put_prefix(model@, cells, i as int, 13);
            assert(sheet_prefix(model@, i as int, 13) =~= sheet_prefix(model@, i + 1, 0));
        }
        i = i + 1;
    }
    assert forall|k: int| 0 <= k < model@.len() implies member_writable(#[trigger] model@[k]) by {
        assert(in_sheet(k + 1, 0) && member_writable(model@[(k + 1) - 1]));
    }
    if model.len() > 0 {
        assert(in_sheet(model@.len() as int, 0) && member_writable(model@[model@.len() - 1]));
    }
    assert(sheet_prefix(model@, i as int, 0) =~= members_sheet_cells(model@));
    let mut col: u16 = 0;
    while col < 13
        invariant
            col <= 13,
            sheet_cells(*ws) == members_sheet_cells(model@),
        decreases 13 - col,
    {
        match set_column_width(ws, col, 20) {
            Ok(()) => {},
            Err(e) => {
                return Err(e);
            },
        }
        col = col + 1;
    }
    Ok(())
}

/// The workbook of the export: one sheet that holds `members_sheet_cells`
/// (a bold header row `ID`, `Nombre`, ..., `Actualizado en`, then a row per
/// member in order), with columns 20 wide. It fails exactly when a
/// member's row does not fit in Excel (too many members, a text over 32,767
/// UTF-16 units, or a date outside Excel's years), with the spreadsheet
/// library's error.
pub fn members_workbook(model: &Vec<MemberWithInterests>) -> (r: Result<Workbook, XlsxError>)
    ensures
        r is Ok <==> sheet_writable(model@),
        r matches Ok(wb) ==> workbook_sheets(wb) == seq![members_sheet_cells(model@)],
{
    let grid = members_sheet(model);
    let mut wb = new_workbook();
    let formats = sheet_formats();
    match fill_sheet(add_worksheet(&mut wb), model, &grid, &formats) {
        Ok(()) => {},
        Err(e) => {
            return Err(e);
        },
    }
    assert(workbook_sheets(wb) =~= seq![members_sheet_cells(model@)]);
    Ok(wb)
}

/// The Excel export of the members (`members_workbook`), saved and sent as
/// base64 text. A member's row that does not fit in Excel fails the export
/// with the spreadsheet library's message; when every row fits, the only
/// failure left is a failure to save, reported as `Error: <reason>`.
pub fn generate_members_excel(model: Vec<MemberWithInterests>) -> (r: Result<String, String>)
    ensures
        r is Ok ==> sheet_writable(model@),
        r matches Ok(s) ==> exists|b: Seq<u8>| s@ == #[trigger] base64_standard(b),
        sheet_writable(model@) ==> (r matches Err(m) ==> has_prefix(m@, "Error: "@)),
{
    let mut wb = match members_workbook(&model) {
        Ok(wb) => wb,
        Err(e) => {
            return Err(xlsx_error_text(&e));
        },
    };
    let saved = match save_to_buffer(&mut wb) {
        Ok(b) => Ok(b),
        Err(e) => Err(xlsx_error_text(&e)),
    };
    let out = encode_workbook_bytes(saved);
    proof {
        if let Err(m) = &out {
            assert(m@.subrange(0, "Error: "@.len() as int) =~= "Error: "@);
        }
    }
    out
}

/// The member's field that a column title names, as the sheet shows it:
/// `ID` the id (0 without one), `Nombre` the name, `Correo Electrónico`
/// the e-mail, `Teléfono` the phone, and so on; nothing for another title.
pub open spec fn field_named(mw: MemberWithInterests, title: Seq<char>) -> Option<SheetEntry> {
    let m = mw.member;
    if title == "ID"@ {
        Some(number_entry(id_or_zero(m.id) as int))
    } else if title == "Nombre"@ {
        text_entry(m.name@)
    } else if title == "Primer Apellido"@ {
        text_entry(m.surname@)
    } else if title == "Segundo Apellido"@ {
        text_entry(m.second_surname@)
    } else if title == "Correo Electrónico"@ {
        text_entry(m.email@)
    } else if title == "Fecha de Nacimiento"@ {
        date_entry(m.birthdate)
    } else if title == "Teléfono"@ {
        text_entry(m.phone@)
    } else if title == "País"@ {
        text_entry(m.country@)
    } else if title == "Género"@ {
        text_entry(gender_label(m.gender))
    } else if title == "Notas"@ {
        text_entry(m.notes@)
    } else if title == "Intereses"@ {
        styled_entry(interest_names_text(mw.interests@), set![FormatFeature::TextWrap])
    } else if title == "Creado en"@ {
        date_entry(date_of(m.created_at))
    } else if title == "Actualizado en"@ {
        date_entry(date_of(m.updated_at))
    } else {
        None
    }
}

/// Every column of a member's row holds the member's field that the
/// column's title names: the cell under `Correo Electrónico` is the
/// e-mail, the one under `Teléfono` the phone, and so on for each title.
pub proof fn lemma_member_columns_follow_headers(mw: MemberWithInterests, j: int)
    requires
        0 <= j < 13,
    ensures
        member_entry(mw, j) == field_named(mw, header_names()[j]),
{
    reveal_strlit("ID");
    reveal_strlit("Nombre");
    reveal_strlit("Primer Apellido");
    reveal_strlit("Segundo Apellido");
    reveal_strlit("Correo Electrónico");
    reveal_strlit("Fecha de Nacimiento");
    reveal_strlit("Teléfono");
    reveal_strlit("País");
    reveal_strlit("Género");
    reveal_strlit("Notas");
    reveal_strlit("Intereses");
    reveal_strlit("Creado en");
    reveal_strlit("Actualizado en");
    assert("ID"@.len() == 2);
    assert("Nombre"@.len() == 6);
    assert("Primer Apellido"@.len() == 15);
    assert("Segundo Apellido"@.len() == 16);
    assert("Correo Electrónico"@.len() == 18);
    assert("Fecha de Nacimiento"@.len() == 19);
    assert("Teléfono"@.len() == 8);
    assert("País"@.len() == 4);
    assert("Género"@.len() == 6);
    assert("Notas"@.len() == 5);
    assert("Intereses"@.len() == 9);
    assert("Creado en"@.len() == 9);
    assert("Actualizado en"@.len() == 14);
    assert("Nombre"@[0] == 'N' && "Género"@[0] == 'G');
    assert("Intereses"@[0] == 'I' && "Creado en"@[0] == 'C');
    let names = header_names();
    if j == 0 {
        assert(names[0] =~= "ID"@);
    } else if j == 1 {
        assert(names[1] =~= "Nombre"@);
    } else if j == 2 {
        assert(names[2] =~= "Primer Apellido"@);
    } else if j == 3 {
        assert(names[3] =~= "Segundo Apellido"@);
    } else if j == 4 {
        assert(names[4] =~= "Correo Electrónico"@);
    } else if j == 5 {
        assert(names[5] =~= "Fecha de Nacimiento"@);
    } else if j == 6 {
        assert(names[6] =~= "Teléfono"@);
    } else if j == 7 {
        assert(names[7] =~= "País"@);
    } else if j == 8 {
        assert(names[8] =~= "Género"@);
    } else if j == 9 {
        assert(names[9] =~= "Notas"@);
    } else if j == 10 {
        assert(names[10] =~= "Intereses"@);
    } else if j == 11 {
        assert(names[11] =~= "Creado en"@);
    } else {
        assert(names[12] =~= "Actualizado en"@);
    }
}

/// The row of a member that the export writes follows the titles: the
/// cell under each title holds the member's field that the title names.
pub proof fn lemma_member_cells_follow_headers(cells: Seq<SheetCell>, mw: MemberWithInterests, j: int)
    requires
        shows_member_cells(cells, mw),
        0 <= j < 13,
    ensures
        cell_entry(cells[j]) == member_entry(mw, j),
        cell_entry(cells[j]) == field_named(mw, header_names()[j]),
{
    lemma_member_entries(cells, mw);
    lemma_member_columns_follow_headers(mw, j);
}

/// In the exported sheet, the cell of member `k` (row `k + 1`) in each
/// column holds the member's field that the column's title (row 0) names.
pub proof fn lemma_sheet_columns_follow_titles(model: Seq<MemberWithInterests>, k: int, j: int)
    requires
        0 <= k < model.len(),
        0 <= j < 13,
    ensures
        sheet_entry(model, (k + 1, j)) == field_named(model[k], header_names()[j]),
        members_sheet_cells(model).contains_key((k + 1, j)) <==> field_named(model[k], header_names()[j]) is Some,
        members_sheet_cells(model).contains_key((k + 1, j)) ==> members_sheet_cells(model)[(k + 1, j)] == field_named(
            model[k],
            header_names()[j],
        )->0,
{
    lemma_member_columns_follow_headers(model[k], j);
}

} // verus!
