//! Minimal OOXML (.xlsx) worksheet writer: inline strings, numbers, a header
//! style, a title style and a money number format. Inline strings keep the
//! package free of a shared-string table; styles are a fixed stylesheet
//! referenced by index.
use vstd::prelude::*;
use crate::archive::{entries_fit, entries_view, zip_archive, zip_bytes, zip_entries, ArchiveError, ZipBuffer};
use vstd::utf8::encode_utf8;
use crate::coherence::{contains_text, lemma_contains_concat, occurs_at};
use crate::text::{
    lemma_column_letters_alphabet, lemma_column_letters_injective, lemma_column_letters_order,
    lemma_column_letters_value, shortlex_lt, column_value,
    column_letters, decimal, escape, push_column_letters, push_decimal, push_escaped,
};

verus! {

/// A single cell value. A number is held as the decimal text that the
/// worksheet stores for it.
pub enum Cell {
    Empty,
    Text(String),
    Num(String),
}

/// A text cell.
pub fn t(s: &str) -> (c: Cell)
    ensures
        c matches Cell::Text(v) && v@ == s@,
{
    Cell::Text(s.to_owned())
}

/// A number cell holding the decimal text `v`.
pub fn n(v: &str) -> (c: Cell)
    ensures
        c matches Cell::Num(x) && x@ == v@,
{
    Cell::Num(v.to_owned())
}

/// An empty cell.
pub fn e() -> (c: Cell)
    ensures
        c is Empty,
{
    Cell::Empty
}

/// Style index of the default style in the fixed stylesheet.
pub const S_DEFAULT: usize = 0;

/// Style index of the header style.
pub const S_HEADER: usize = 1;

/// Style index of the title style.
pub const S_TITLE: usize = 2;

/// Style index of the money number format.
pub const S_MONEY: usize = 3;

/// One worksheet: its name, its rows, which rows take the header or title
/// style across the row (0-based row indices), and the column widths (as the
/// decimal text stored in the worksheet).
pub struct Sheet {
    pub name: String,
    pub rows: Vec<Vec<Cell>>,
    pub header_rows: Vec<usize>,
    pub title_rows: Vec<usize>,
    pub col_widths: Vec<String>,
}

impl Sheet {
    /// An empty sheet called `name`.
    pub fn new(name: &str) -> (s: Self)
        ensures
            s.name@ == name@,
            s.rows@.len() == 0,
            s.header_rows@.len() == 0,
            s.title_rows@.len() == 0,
            s.col_widths@.len() == 0,
    {
        Sheet {
            name: name.to_owned(),
            rows: Vec::new(),
            header_rows: Vec::new(),
            title_rows: Vec::new(),
            col_widths: Vec::new(),
        }
    }

    /// Appends a plain row.
    pub fn row(&mut self, cells: Vec<Cell>) -> (r: &mut Self)
        ensures
            r.name == old(self).name,
            r.rows@ == old(self).rows@.push(cells),
            r.header_rows == old(self).header_rows,
            r.title_rows == old(self).title_rows,
            r.col_widths == old(self).col_widths,
            *final(self) == *final(r),
    {
        self.rows.push(cells);
        self
    }

    /// Appends a row that takes the header style.
    pub fn header(&mut self, cells: Vec<Cell>) -> (r: &mut Self)
        ensures
            r.name == old(self).name,
            r.rows@ == old(self).rows@.push(cells),
            r.header_rows@ == old(self).header_rows@.push(old(self).rows@.len() as usize),
            r.title_rows == old(self).title_rows,
            r.col_widths == old(self).col_widths,
            *final(self) == *final(r),
    {
        let at = self.rows.len();
        self.header_rows.push(at);
        self.rows.push(cells);
        self
    }

    /// Appends a one-cell title row that takes the title style.
    pub fn title(&mut self, text: &str) -> (r: &mut Self)
        ensures
            r.name == old(self).name,
            r.rows@.len() == old(self).rows@.len() + 1,
            r.rows@.drop_last() == old(self).rows@,
            r.rows@.last()@.len() == 1,
            r.rows@.last()@[0] matches Cell::Text(v) && v@ == text@,
            r.header_rows == old(self).header_rows,
            r.title_rows@ == old(self).title_rows@.push(old(self).rows@.len() as usize),
            r.col_widths == old(self).col_widths,
            *final(self) == *final(r),
    {
        let at = self.rows.len();
        self.title_rows.push(at);
        let mut cells: Vec<Cell> = Vec::new();
        cells.push(t(text));
        self.rows.push(cells);
        assert(self.rows@.drop_last() =~= old(self).rows@);
        self
    }

    /// Sets the column widths.
    pub fn widths(&mut self, w: &[&str]) -> (r: &mut Self)
        ensures
            r.name == old(self).name,
            r.rows == old(self).rows,
            r.header_rows == old(self).header_rows,
            r.title_rows == old(self).title_rows,
            r.col_widths@.len() == w@.len(),
            forall|i: int| 0 <= i < w@.len() ==> #[trigger] r.col_widths@[i]@ == w@[i]@,
            *final(self) == *final(r),
    {
        let mut out: Vec<String> = Vec::new();
        let mut i: usize = 0;
        while i < w.len()
            invariant
                i <= w@.len(),
                out@.len() == i,
                forall|k: int| 0 <= k < i ==> #[trigger] out@[k]@ == w@[k]@,
            decreases w@.len() - i,
        {
            out.push(w[i].to_owned());
            i = i + 1;
        }
        self.col_widths = out;
        self
    }
}

/// The A1-style column name of the 0-based column `c` (`A`, ..., `Z`, `AA`, ...).
pub open spec fn column_name(c: nat) -> Seq<char> {
    column_letters(c + 1)
}

/// Distinct columns have distinct names, so every cell of a row gets its
/// own reference.
pub proof fn lemma_column_names_distinct(a: nat, b: nat)
    ensures
        a != b ==> column_name(a) != column_name(b),
{
    lemma_column_letters_injective(a + 1, b + 1);
}

/// A column name is a nonempty word over `A`..`Z` that, read as a bijective
/// base-26 numeral, denotes the column's 1-based number; and column names
/// come in shortlex order (shorter first, then alphabetical) exactly as the
/// columns do.
pub proof fn lemma_column_names_ordered(a: nat, b: nat)
    ensures
        column_name(a).len() > 0,
        forall|k: int| 0 <= k < column_name(a).len() ==> 'A' <= #[trigger] column_name(a)[k] <= 'Z',
        column_value(column_name(a)) == a + 1,
        a < b <==> shortlex_lt(column_name(a), column_name(b)),
{
    lemma_column_letters_alphabet(a + 1);
    lemma_column_letters_value(a + 1);
    lemma_column_letters_order(a + 1, b + 1);
}

/// The A1-style column name of the 0-based column `c`.
pub fn col_letter(c: usize) -> (s: String)
    requires
        c < usize::MAX,
    ensures
        s@ == column_name(c as nat),
{
    let mut s = String::new();
    push_column_letters(&mut s, c + 1);
    assert(s@ =~= column_name(c as nat));
    s
}

/// XML-escapes `&`, `<`, `>` and `"`. What escaping guarantees is stated of
/// `escape` in `text`: no raw `<`, `>` or `"` remains
/// (`lemma_escape_no_markup`), every `&` starts an entity reference
/// (`lemma_escape_ampersands`), decoding gives the text back
/// (`lemma_unescape_escape`), and a text is unchanged exactly when it holds
/// none of the four characters (`lemma_escape_identity`).
pub fn esc(s: &str) -> (r: String)
    ensures
        r@ == escape(s@),
{
    let mut r = String::new();
    push_escaped(&mut r, s);
    assert(r@ =~= escape(s@));
    r
}

/// The XML declaration that opens every part.
pub const XML_DECL: &'static str = r#"<?xml version="1.0" encoding="UTF-8" standalone="yes"?>"#;

/// The opening tag of a worksheet part.
pub const WORKSHEET_OPEN: &'static str = r#"<worksheet xmlns="http://schemas.openxmlformats.org/spreadsheetml/2006/main">"#;

/// The style of a cell: title rows take the title style, header rows the
/// header style, other numbers the money format, everything else the default.
pub open spec fn cell_style(is_title: bool, is_header: bool, cell: Cell) -> nat {
    if is_title {
        S_TITLE as nat
    } else if is_header {
        S_HEADER as nat
    } else {
        match cell {
            Cell::Num(_) => S_MONEY as nat,
            _ => S_DEFAULT as nat,
        }
    }
}

/// The `<c>` element of one cell at reference `cref` with style `style`.
pub open spec fn cell_xml(cell: Cell, cref: Seq<char>, style: nat) -> Seq<char> {
    match cell {
        Cell::Empty => "<c r=\""@ + cref + "\" s=\""@ + decimal(style) + "\"/>"@,
        Cell::Text(s) => "<c r=\""@ + cref + "\" s=\""@ + decimal(style)
            + "\" t=\"inlineStr\"><is><t xml:space=\"preserve\">"@ + escape(s@) + "</t></is></c>"@,
        Cell::Num(v) => "<c r=\""@ + cref + "\" s=\""@ + decimal(style) + "\"><v>"@ + v@
            + "</v></c>"@,
    }
}

/// The `<c>` elements of the first `k` cells of a row numbered `rnum` (1-based).
pub open spec fn cells_xml(
    row: Seq<Cell>,
    rnum: nat,
    is_title: bool,
    is_header: bool,
    k: nat,
) -> Seq<char>
    decreases k,
{
    if k == 0 {
        seq![]
    } else {
        let cell = row[k - 1];
        cells_xml(row, rnum, is_title, is_header, (k - 1) as nat) + cell_xml(
            cell,
            column_name((k - 1) as nat) + decimal(rnum),
            cell_style(is_title, is_header, cell),
        )
    }
}

/// The `<row>` element of the 0-based row `ri` of `sheet`.
pub open spec fn row_xml(sheet: Sheet, ri: nat) -> Seq<char> {
    let row = sheet.rows@[ri as int]@;
    "<row r=\""@ + decimal(ri + 1) + "\">"@ + cells_xml(
        row,
        ri + 1,
        sheet.title_rows@.contains(ri as usize),
        sheet.header_rows@.contains(ri as usize),
        row.len(),
    ) + "</row>"@
}

/// The `<row>` elements of the first `k` rows of `sheet`.
pub open spec fn rows_xml(sheet: Sheet, k: nat) -> Seq<char>
    decreases k,
{
    if k == 0 {
        seq![]
    } else {
        rows_xml(sheet, (k - 1) as nat) + row_xml(sheet, (k - 1) as nat)
    }
}

/// The `<col>` element giving the 0-based column `i` the width `w`.
pub open spec fn col_xml(i: nat, w: Seq<char>) -> Seq<char> {
    "<col min=\""@ + decimal(i + 1) + "\" max=\""@ + decimal(i + 1) + "\" width=\""@ + w
        + "\" customWidth=\"1\"/>"@
}

/// The `<col>` elements of the first `k` column widths.
pub open spec fn cols_xml(widths: Seq<String>, k: nat) -> Seq<char>
    decreases k,
{
    if k == 0 {
        seq![]
    } else {
        cols_xml(widths, (k - 1) as nat) + col_xml((k - 1) as nat, widths[k - 1]@)
    }
}

/// The whole worksheet part of `sheet`.
pub open spec fn worksheet(sheet: Sheet) -> Seq<char> {
    let widths = sheet.col_widths@;
    XML_DECL@ + WORKSHEET_OPEN@ + (if widths.len() == 0 {
        seq![]
    } else {
        "<cols>"@ + cols_xml(widths, widths.len()) + "</cols>"@
    }) + "<sheetData>"@ + rows_xml(sheet, sheet.rows@.len()) + "</sheetData></worksheet>"@
}

/// Whether `v` holds `x`.
fn holds_index(v: &Vec<usize>, x: usize) -> (b: bool)
    ensures
        b == v@.contains(x),
{
    let mut i: usize = 0;
    while i < v.len()
        invariant
            i <= v@.len(),
            forall|k: int| 0 <= k < i ==> v@[k] != x,
        decreases v@.len() - i,
    {
        if v[i] == x {
            return true;
        }
        i = i + 1;
    }
    false
}

/// Appends the `<c>` element of `cell` in 0-based column `ci` of row `rnum`.
fn push_cell(x: &mut String, cell: &Cell, ci: usize, rnum: usize, style: usize)
    requires
        ci < usize::MAX,
    ensures
        final(x)@ == old(x)@ + cell_xml(*cell, column_name(ci as nat) + decimal(rnum as nat), style as nat),
{
    let cref = col_letter(ci);
    x.append("<c r=\"");
    x.append(cref.as_str());
    push_decimal(x, rnum);
    x.append("\" s=\"");
    push_decimal(x, style);
    match cell {
        Cell::Empty => {
            x.append("\"/>");
        },
        Cell::Text(s) => {
            x.append("\" t=\"inlineStr\"><is><t xml:space=\"preserve\">");
            push_escaped(x, s.as_str());
            x.append("</t></is></c>");
        },
        Cell::Num(v) => {
            x.append("\"><v>");
            x.append(v.as_str());
            x.append("</v></c>");
        },
    }
    assert(final(x)@ =~= old(x)@ + cell_xml(*cell, column_name(ci as nat) + decimal(rnum as nat), style as nat));
}

/// Appends the `<row>` element of the 0-based row `ri`.
fn push_row(x: &mut String, sheet: &Sheet, ri: usize)
    requires
        ri < sheet.rows@.len(),
    ensures
        final(x)@ == old(x)@ + row_xml(*sheet, ri as nat),
{
    let total = sheet.rows.len();
    assert(ri < total);
    let rnum = ri + 1;
    let is_header = holds_index(&sheet.header_rows, ri);
    let is_title = holds_index(&sheet.title_rows, ri);
    let row = &sheet.rows[ri];
    x.append("<row r=\"");
    push_decimal(x, rnum);
    x.append("\">");
    let ghost start = x@;
    let mut ci: usize = 0;
    while ci < row.len()
        invariant
            row == &sheet.rows@[ri as int],
            ci <= row@.len(),
            rnum == ri + 1,
            x@ == start + cells_xml(row@, rnum as nat, is_title, is_header, ci as nat),
        decreases row@.len() - ci,
    {
        let cell = &row[ci];
        let style = if is_title {
            S_TITLE
        } else if is_header {
            S_HEADER
        } else {
            match cell {
                Cell::Num(_) => S_MONEY,
                _ => S_DEFAULT,
            }
        };
        push_cell(x, cell, ci, rnum, style);
        ci = ci + 1;
        assert(x@ =~= start + cells_xml(row@, rnum as nat, is_title, is_header, ci as nat));
    }
    x.append("</row>");
    assert(final(x)@ =~= old(x)@ + row_xml(*sheet, ri as nat));
}

/// The worksheet part (`xl/worksheets/sheetN.xml`) of `sheet`.
pub fn sheet_xml(sheet: &Sheet) -> (x: String)
    ensures
        x@ == worksheet(*sheet),
{
    let mut x = String::new();
    x.append(XML_DECL);
    x.append(WORKSHEET_OPEN);
    let ghost head = x@;
    let widths = &sheet.col_widths;
    if widths.len() > 0 {
        x.append("<cols>");
        let ghost start = x@;
        let mut i: usize = 0;
        while i < widths.len()
            invariant
                widths == &sheet.col_widths,
                i <= widths@.len(),
                x@ == start + cols_xml(widths@, i as nat),
            decreases widths@.len() - i,
        {
            x.append("<col min=\"");
            push_decimal(&mut x, i + 1);
            x.append("\" max=\"");
            push_decimal(&mut x, i + 1);
            x.append("\" width=\"");
            x.append(widths[i].as_str());
            x.append("\" customWidth=\"1\"/>");
            i = i + 1;
            assert(x@ =~= start + cols_xml(widths@, i as nat));
        }
        x.append("</cols>");
    }
    x.append("<sheetData>");
    let ghost mid = x@;
    let mut ri: usize = 0;
    while ri < sheet.rows.len()
        invariant
            ri <= sheet.rows@.len(),
            x@ == mid + rows_xml(*sheet, ri as nat),
        decreases sheet.rows@.len() - ri,
    {
        push_row(&mut x, sheet, ri);
        ri = ri + 1;
        assert(x@ =~= mid + rows_xml(*sheet, ri as nat));
    }
    x.append("</sheetData></worksheet>");
    assert(x@ =~= worksheet(*sheet));
    x
}


/// The fixed stylesheet: fonts normal, bold and bold white; fills none,
/// gray125, header blue and title dark; number format 164 for money. Cell
/// styles 0 to 3 are default, header, title and money.
pub const STYLES_XML: &'static str = r##"<?xml version="1.0" encoding="UTF-8" standalone="yes"?>
<styleSheet xmlns="http://schemas.openxmlformats.org/spreadsheetml/2006/main">
<numFmts count="1"><numFmt numFmtId="164" formatCode="#,##0.00######;[Red]-#,##0.00######"/></numFmts>
<fonts count="3">
<font><sz val="11"/><name val="Calibri"/></font>
<font><b/><sz val="11"/><name val="Calibri"/></font>
<font><b/><sz val="12"/><color rgb="FFFFFFFF"/><name val="Calibri"/></font>
</fonts>
<fills count="4">
<fill><patternFill patternType="none"/></fill>
<fill><patternFill patternType="gray125"/></fill>
<fill><patternFill patternType="solid"><fgColor rgb="FF1F4E78"/><bgColor indexed="64"/></patternFill></fill>
<fill><patternFill patternType="solid"><fgColor rgb="FF0B3D2E"/><bgColor indexed="64"/></patternFill></fill>
</fills>
<borders count="1"><border><left/><right/><top/><bottom/><diagonal/></border></borders>
<cellStyleXfs count="1"><xf numFmtId="0" fontId="0" fillId="0" borderId="0"/></cellStyleXfs>
<cellXfs count="4">
<xf numFmtId="0" fontId="0" fillId="0" borderId="0" xfId="0"/>
<xf numFmtId="0" fontId="2" fillId="2" borderId="0" xfId="0" applyFont="1" applyFill="1"/>
<xf numFmtId="0" fontId="2" fillId="3" borderId="0" xfId="0" applyFont="1" applyFill="1"/>
<xf numFmtId="164" fontId="0" fillId="0" borderId="0" xfId="0" applyNumberFormat="1"/>
</cellXfs>
<cellStyles count="1"><cellStyle name="Normal" xfId="0" builtinId="0"/></cellStyles>
</styleSheet>"##;

/// The stylesheet part (`xl/styles.xml`).
pub fn styles_xml() -> (s: String)
    ensures
        s@ == STYLES_XML@,
{
    STYLES_XML.to_owned()
}

/// The content-types part up to the first worksheet override.
pub const CONTENT_TYPES_HEAD: &'static str = r#"<?xml version="1.0" encoding="UTF-8" standalone="yes"?><Types xmlns="http://schemas.openxmlformats.org/package/2006/content-types"><Default Extension="rels" ContentType="application/vnd.openxmlformats-package.relationships+xml"/><Default Extension="xml" ContentType="application/xml"/><Override PartName="/xl/workbook.xml" ContentType="application/vnd.openxmlformats-officedocument.spreadsheetml.sheet.main+xml"/><Override PartName="/xl/styles.xml" ContentType="application/vnd.openxmlformats-officedocument.spreadsheetml.styles+xml"/>"#;

/// The package relationships part (`_rels/.rels`).
pub const ROOT_RELS_XML: &'static str = r#"<?xml version="1.0" encoding="UTF-8" standalone="yes"?><Relationships xmlns="http://schemas.openxmlformats.org/package/2006/relationships"><Relationship Id="rId1" Type="http://schemas.openxmlformats.org/officeDocument/2006/relationships/officeDocument" Target="xl/workbook.xml"/></Relationships>"#;

/// The workbook part up to the first sheet entry.
pub const WORKBOOK_HEAD: &'static str = r#"<?xml version="1.0" encoding="UTF-8" standalone="yes"?><workbook xmlns="http://schemas.openxmlformats.org/spreadsheetml/2006/main" xmlns:r="http://schemas.openxmlformats.org/officeDocument/2006/relationships"><sheets>"#;

/// The workbook relationships part up to the first relationship.
pub const WORKBOOK_RELS_HEAD: &'static str = r#"<?xml version="1.0" encoding="UTF-8" standalone="yes"?><Relationships xmlns="http://schemas.openxmlformats.org/package/2006/relationships">"#;

/// The content-type override of worksheet number `k` (1-based).
pub open spec fn sheet_override(k: nat) -> Seq<char> {
    "<Override PartName=\"/xl/worksheets/sheet"@ + decimal(k)
        + ".xml\" ContentType=\"application/vnd.openxmlformats-officedocument.spreadsheetml.worksheet+xml\"/>"@
}

/// The overrides of worksheets 1 to `k`.
pub open spec fn sheet_overrides(k: nat) -> Seq<char>
    decreases k,
{
    if k == 0 {
        seq![]
    } else {
        sheet_overrides((k - 1) as nat) + sheet_override(k)
    }
}

/// The content-types part of a workbook with `k` worksheets.
pub open spec fn content_types(k: nat) -> Seq<char> {
    CONTENT_TYPES_HEAD@ + sheet_overrides(k) + "</Types>"@
}

/// The content-types part (`[Content_Types].xml`) of a workbook with
/// `count` worksheets.
pub fn content_types_xml(count: usize) -> (s: String)
    requires
        count < usize::MAX,
    ensures
        s@ == content_types(count as nat),
{
    let mut s = String::new();
    s.append(CONTENT_TYPES_HEAD);
    let ghost head = s@;
    let mut i: usize = 0;
    while i < count
        invariant
            i <= count,
            count < usize::MAX,
            s@ == head + sheet_overrides(i as nat),
        decreases count - i,
    {
        s.append("<Override PartName=\"/xl/worksheets/sheet");
        push_decimal(&mut s, i + 1);
        s.append(".xml\" ContentType=\"application/vnd.openxmlformats-officedocument.spreadsheetml.worksheet+xml\"/>");
        i = i + 1;
        assert(s@ =~= head + sheet_overrides(i as nat));
    }
    s.append("</Types>");
    assert(s@ =~= content_types(count as nat));
    s
}

/// The `<sheet>` entry of worksheet number `k` (1-based) called `name`.
pub open spec fn sheet_entry(k: nat, name: Seq<char>) -> Seq<char> {
    "<sheet name=\""@ + escape(name) + "\" sheetId=\""@ + decimal(k) + "\" r:id=\"rId"@
        + decimal(k) + "\"/>"@
}

/// The `<sheet>` entries of the first `k` sheets.
pub open spec fn sheet_entries(sheets: Seq<Sheet>, k: nat) -> Seq<char>
    decreases k,
{
    if k == 0 {
        seq![]
    } else {
        sheet_entries(sheets, (k - 1) as nat) + sheet_entry(k, sheets[k - 1].name@)
    }
}

/// The workbook part listing `sheets` in order.
pub open spec fn workbook(sheets: Seq<Sheet>) -> Seq<char> {
    WORKBOOK_HEAD@ + sheet_entries(sheets, sheets.len()) + "</sheets></workbook>"@
}

/// The workbook part (`xl/workbook.xml`): sheet `i` (0-based) is listed with
/// its escaped name, sheet id `i + 1` and relationship `rId{i + 1}`.
pub fn workbook_xml(sheets: &[Sheet]) -> (s: String)
    ensures
        s@ == workbook(sheets@),
{
    let mut s = String::new();
    s.append(WORKBOOK_HEAD);
    let ghost head = s@;
    let mut i: usize = 0;
    while i < sheets.len()
        invariant
            i <= sheets@.len(),
            s@ == head + sheet_entries(sheets@, i as nat),
        decreases sheets@.len() - i,
    {
        s.append("<sheet name=\"");
        push_escaped(&mut s, sheets[i].name.as_str());
        s.append("\" sheetId=\"");
        push_decimal(&mut s, i + 1);
        s.append("\" r:id=\"rId");
        push_decimal(&mut s, i + 1);
        s.append("\"/>");
        i = i + 1;
        assert(s@ =~= head + sheet_entries(sheets@, i as nat));
    }
    s.append("</sheets></workbook>");
    assert(s@ =~= workbook(sheets@));
    s
}

/// The relationship of worksheet number `k` (1-based).
pub open spec fn sheet_rel(k: nat) -> Seq<char> {
    "<Relationship Id=\"rId"@ + decimal(k)
        + "\" Type=\"http://schemas.openxmlformats.org/officeDocument/2006/relationships/worksheet\" Target=\"worksheets/sheet"@
        + decimal(k) + ".xml\"/>"@
}

/// The relationships of worksheets 1 to `k`.
pub open spec fn sheet_rels(k: nat) -> Seq<char>
    decreases k,
{
    if k == 0 {
        seq![]
    } else {
        sheet_rels((k - 1) as nat) + sheet_rel(k)
    }
}

/// The workbook relationships of `k` worksheets: worksheet `i` is `rId{i}`
/// and the stylesheet is `rId{k + 1}`.
pub open spec fn workbook_rels(k: nat) -> Seq<char> {
    WORKBOOK_RELS_HEAD@ + sheet_rels(k) + "<Relationship Id=\"rId"@ + decimal(k + 1)
        + "\" Type=\"http://schemas.openxmlformats.org/officeDocument/2006/relationships/styles\" Target=\"styles.xml\"/>"@
        + "</Relationships>"@
}

/// The workbook relationships part (`xl/_rels/workbook.xml.rels`) of a
/// workbook with `count` worksheets.
pub fn workbook_rels_xml(count: usize) -> (s: String)
    requires
        count < usize::MAX,
    ensures
        s@ == workbook_rels(count as nat),
{
    let mut s = String::new();
    s.append(WORKBOOK_RELS_HEAD);
    let ghost head = s@;
    let mut i: usize = 0;
    while i < count
        invariant
            i <= count,
            count < usize::MAX,
            s@ == head + sheet_rels(i as nat),
        decreases count - i,
    {
        s.append("<Relationship Id=\"rId");
        push_decimal(&mut s, i + 1);
        s.append("\" Type=\"http://schemas.openxmlformats.org/officeDocument/2006/relationships/worksheet\" Target=\"worksheets/sheet");
        push_decimal(&mut s, i + 1);
        s.append(".xml\"/>");
        i = i + 1;
        assert(s@ =~= head + sheet_rels(i as nat));
    }
    s.append("<Relationship Id=\"rId");
    push_decimal(&mut s, count + 1);
    s.append("\" Type=\"http://schemas.openxmlformats.org/officeDocument/2006/relationships/styles\" Target=\"styles.xml\"/>");
    s.append("</Relationships>");
    assert(s@ =~= workbook_rels(count as nat));
    s
}

/// The name of the part of worksheet number `k` (1-based).
pub open spec fn sheet_part_name(k: nat) -> Seq<char> {
    "xl/worksheets/sheet"@ + decimal(k) + ".xml"@
}

/// The worksheet parts of the first `k` sheets.
pub open spec fn sheet_parts(sheets: Seq<Sheet>, k: nat) -> Seq<(Seq<char>, Seq<char>)>
    decreases k,
{
    if k == 0 {
        seq![]
    } else {
        sheet_parts(sheets, (k - 1) as nat).push((sheet_part_name(k), worksheet(sheets[k - 1])))
    }
}

/// Every part of the workbook package of `sheets`, as (part name, XML text),
/// in the order they are written: content types, package relationships,
/// workbook, workbook relationships, styles, then one part per worksheet.
pub open spec fn package(sheets: Seq<Sheet>) -> Seq<(Seq<char>, Seq<char>)> {
    seq![
        ("[Content_Types].xml"@, content_types(sheets.len())),
        ("_rels/.rels"@, ROOT_RELS_XML@),
        ("xl/workbook.xml"@, workbook(sheets)),
        ("xl/_rels/workbook.xml.rels"@, workbook_rels(sheets.len())),
        ("xl/styles.xml"@, STYLES_XML@),
    ] + sheet_parts(sheets, sheets.len())
}

/// The (name, text) views of a list of parts.
pub open spec fn parts_view(parts: Seq<(String, String)>) -> Seq<(Seq<char>, Seq<char>)> {
    parts.map_values(|p: (String, String)| (p.0@, p.1@))
}

/// Every part of the workbook package of `sheets`, in the order they are
/// written into the archive.
pub fn workbook_parts(sheets: &[Sheet]) -> (parts: Vec<(String, String)>)
    requires
        sheets@.len() < usize::MAX,
    ensures
        parts_view(parts@) == package(sheets@),
{
    let count = sheets.len();
    let mut parts: Vec<(String, String)> = Vec::new();
    parts.push(("[Content_Types].xml".to_owned(), content_types_xml(count)));
    parts.push(("_rels/.rels".to_owned(), ROOT_RELS_XML.to_owned()));
    parts.push(("xl/workbook.xml".to_owned(), workbook_xml(sheets)));
    parts.push(("xl/_rels/workbook.xml.rels".to_owned(), workbook_rels_xml(count)));
    parts.push(("xl/styles.xml".to_owned(), styles_xml()));
    let ghost fixed = parts_view(parts@);
    assert(fixed =~= package(sheets@).subrange(0, 5));
    let mut i: usize = 0;
    while i < count
        invariant
            count == sheets@.len(),
            i <= count,
            fixed.len() == 5,
            parts_view(parts@) == fixed + sheet_parts(sheets@, i as nat),
        decreases count - i,
    {
        let mut name = String::new();
        name.append("xl/worksheets/sheet");
        push_decimal(&mut name, i + 1);
        name.append(".xml");
        let xml = sheet_xml(&sheets[i]);
        assert(name@ =~= sheet_part_name((i + 1) as nat));
        let ghost before = parts@;
        parts.push((name, xml));
        assert(parts_view(parts@) =~= parts_view(before).push((name@, xml@)));
        i = i + 1;
        assert(parts_view(parts@) =~= fixed + sheet_parts(sheets@, i as nat));
    }
    assert(package(sheets@) =~= fixed + sheet_parts(sheets@, count as nat));
    parts
}

/// The `k`-th worksheet part (0-based) is the first `k` sheets' parts' successor.
proof fn lemma_sheet_parts_index(sheets: Seq<Sheet>, n: nat, k: int)
    requires
        0 <= k < n <= sheets.len(),
    ensures
        sheet_parts(sheets, n).len() == n,
        sheet_parts(sheets, n)[k] == ("xl/worksheets/sheet"@ + decimal((k + 1) as nat) + ".xml"@, worksheet(sheets[k])),
    decreases n,
{
    lemma_sheet_parts_len(sheets, (n - 1) as nat);
    if k < n - 1 {
        lemma_sheet_parts_index(sheets, (n - 1) as nat, k);
    }
}

/// There are as many worksheet parts as sheets counted.
proof fn lemma_sheet_parts_len(sheets: Seq<Sheet>, n: nat)
    ensures
        sheet_parts(sheets, n).len() == n,
    decreases n,
{
    if n > 0 {
        lemma_sheet_parts_len(sheets, (n - 1) as nat);
    }
}

/// The `<sheet>` entry of sheet `k` (0-based) stands among the entries of
/// any `n > k` sheets.
proof fn lemma_sheet_entries_hold(sheets: Seq<Sheet>, n: nat, k: int)
    requires
        0 <= k < n <= sheets.len(),
    ensures
        contains_text(sheet_entries(sheets, n), sheet_entry((k + 1) as nat, sheets[k].name@)),
    decreases n,
{
    let e = sheet_entry((k + 1) as nat, sheets[k].name@);
    if k == n - 1 {
        assert(e.subrange(0, e.len() as int) =~= e);
        assert(occurs_at(e, 0, e));
        lemma_contains_concat(sheet_entries(sheets, (n - 1) as nat), e, e);
    } else {
        lemma_sheet_entries_hold(sheets, (n - 1) as nat, k);
        lemma_contains_concat(sheet_entries(sheets, (n - 1) as nat), sheet_entry(n, sheets[n - 1].name@), e);
    }
}

/// The relationship of worksheet `k` (0-based) stands among the
/// relationships of any `n > k` worksheets.
proof fn lemma_sheet_rels_hold(n: nat, k: int)
    requires
        0 <= k < n,
    ensures
        contains_text(sheet_rels(n), sheet_rel((k + 1) as nat)),
    decreases n,
{
    let e = sheet_rel((k + 1) as nat);
    if k == n - 1 {
        assert(e.subrange(0, e.len() as int) =~= e);
        assert(occurs_at(e, 0, e));
        lemma_contains_concat(sheet_rels((n - 1) as nat), e, e);
    } else {
        lemma_sheet_rels_hold((n - 1) as nat, k);
        lemma_contains_concat(sheet_rels((n - 1) as nat), sheet_rel(n), e);
    }
}

/// The package of `sheets` holds the five fixed parts and one worksheet part
/// per sheet: the part `xl/worksheets/sheet{k+1}.xml`, sixth onwards in sheet
/// order, is the worksheet of `sheets[k]`; `xl/workbook.xml` lists
/// `sheets[k]` by name with sheet id and relationship `k + 1`; and
/// relationship `rId{k+1}` targets `worksheets/sheet{k+1}.xml`.
pub proof fn lemma_package_sheet_parts(sheets: Seq<Sheet>, k: int)
    requires
        0 <= k < sheets.len(),
    ensures
        package(sheets).len() == sheets.len() + 5,
        package(sheets)[5 + k] == ("xl/worksheets/sheet"@ + decimal((k + 1) as nat) + ".xml"@, worksheet(sheets[k])),
        contains_text(workbook(sheets), "<sheet name=\""@ + escape(sheets[k].name@) + "\" sheetId=\""@
            + decimal((k + 1) as nat) + "\" r:id=\"rId"@ + decimal((k + 1) as nat) + "\"/>"@),
        contains_text(workbook_rels(sheets.len()), "<Relationship Id=\"rId"@ + decimal((k + 1) as nat)
            + "\" Type=\"http://schemas.openxmlformats.org/officeDocument/2006/relationships/worksheet\" Target=\"worksheets/sheet"@
            + decimal((k + 1) as nat) + ".xml\"/>"@),
{
    lemma_sheet_parts_index(sheets, sheets.len(), k);
    lemma_sheet_entries_hold(sheets, sheets.len(), k);
    let es = sheet_entries(sheets, sheets.len());
    let e = sheet_entry((k + 1) as nat, sheets[k].name@);
    lemma_contains_concat(WORKBOOK_HEAD@, es, e);
    lemma_contains_concat(WORKBOOK_HEAD@ + es, "</sheets></workbook>"@, e);
    lemma_sheet_rels_hold(sheets.len(), k);
    let rs = sheet_rels(sheets.len());
    let r = sheet_rel((k + 1) as nat);
    let tail = "<Relationship Id=\"rId"@ + decimal(sheets.len() + 1)
        + "\" Type=\"http://schemas.openxmlformats.org/officeDocument/2006/relationships/styles\" Target=\"styles.xml\"/>"@
        + "</Relationships>"@;
    lemma_contains_concat(WORKBOOK_RELS_HEAD@, rs, r);
    lemma_contains_concat(WORKBOOK_RELS_HEAD@ + rs, tail, r);
    assert(workbook_rels(sheets.len()) =~= WORKBOOK_RELS_HEAD@ + rs + tail);
}

/// The archive entries of the workbook package: each part's text in UTF-8.
pub open spec fn package_entries(sheets: Seq<Sheet>) -> Seq<(Seq<char>, Seq<u8>)> {
    package(sheets).map_values(|p: (Seq<char>, Seq<char>)| (p.0, encode_utf8(p.1)))
}

/// The .xlsx file of `sheets`: the workbook package zipped with deflate. It
/// succeeds whenever every part is below 2 GiB in UTF-8; on success the bytes are those of a zip writer holding exactly the package
/// parts, in order, each encoded in UTF-8; a failed part is reported by its
/// index in that order.
pub fn xlsx_bytes(sheets: &[Sheet]) -> (r: Result<Vec<u8>, ArchiveError>)
    requires
        sheets@.len() < usize::MAX,
    ensures
        entries_fit(package_entries(sheets@)) ==> r is Ok,
        r matches Ok(b) ==> exists|z: ZipBuffer|
            zip_entries(z) == package_entries(sheets@) && b@ == zip_bytes(z),
        r matches Err(ArchiveError::StartEntry(i)) ==> i < package(sheets@).len(),
        r matches Err(ArchiveError::WriteEntry(i)) ==> i < package(sheets@).len(),
{
    let parts = workbook_parts(sheets);
    let mut entries: Vec<(String, Vec<u8>)> = Vec::new();
    let mut i: usize = 0;
    while i < parts.len()
        invariant
            i <= parts@.len(),
            parts_view(parts@) == package(sheets@),
            entries@.len() == i,
            forall|k: int| 0 <= k < i ==> (#[trigger] entries@[k]).0@ == parts@[k].0@
                && entries@[k].1@ == encode_utf8(parts@[k].1@),
        decreases parts@.len() - i,
    {
        let name = parts[i].0.clone();
        let data = parts[i].1.as_str().as_bytes_vec();
        entries.push((name, data));
        i = i + 1;
    }
    assert(entries_view(entries@) =~= package_entries(sheets@)) by {
        assert forall|k: int| 0 <= k < entries@.len() implies #[trigger] entries_view(entries@)[k] == package_entries(sheets@)[k] by {
            assert(parts_view(parts@)[k] == package(sheets@)[k]);
        }
    }
    zip_archive(&entries)
}

} // verus!
