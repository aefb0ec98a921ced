//! HTML text: escaping, colour codes, and the interactive page that exports a
//! table's rows to a browser.
use vstd::prelude::*;
use crate::json::{JsonRow, html_cell, html_cell_text, row_get};
use crate::sql::ColumnInfo;
use crate::text::{decimal, hex2, push_char, push_decimal, push_hex2, push_str, to_owned_string};

verus! {

/// The HTML text of one character: `&`, `<`, `>`, `"` and `'` become entities.
pub open spec fn escape_char(c: char) -> Seq<char> {
    if c == '&' {
        "&amp;"@
    } else if c == '<' {
        "&lt;"@
    } else if c == '>' {
        "&gt;"@
    } else if c == '"' {
        "&quot;"@
    } else if c == '\'' {
        "&#39;"@
    } else {
        seq![c]
    }
}

/// The HTML text of `s`.
pub open spec fn escape_spec(s: Seq<char>) -> Seq<char>
    decreases s.len(),
{
    if s.len() == 0 {
        seq![]
    } else {
        escape_spec(s.drop_last()) + escape_char(s.last())
    }
}

/// Appends the HTML text of `s`.
pub fn push_escaped(out: &mut String, s: &str)
    ensures
        final(out)@ == old(out)@ + escape_spec(s@),
{
    let ghost start = out@;
    for c in it: s.chars()
        invariant
            it.seq() == s@,
            out@ == start + escape_spec(s@.take(it.index() as int)),
    {
        assert(s@.take(it.index() + 1).drop_last() =~= s@.take(it.index() as int));
        if c == '&' {
            push_str(out, "&amp;");
        } else if c == '<' {
            push_str(out, "&lt;");
        } else if c == '>' {
            push_str(out, "&gt;");
        } else if c == '"' {
            push_str(out, "&quot;");
        } else if c == '\'' {
            push_str(out, "&#39;");
        } else {
            push_char(out, c);
        }
        assert(out@ =~= start + escape_spec(s@.take(it.index() + 1)));
    }
    assert(s@.take(s@.len() as int) =~= s@);
}

/// `s` with `&`, `<`, `>`, `"` and `'` replaced by their HTML entities.
pub fn escape_html(s: &str) -> (r: String)
    ensures
        r@ == escape_spec(s@),
{
    let mut r = String::new();
    push_escaped(&mut r, s);
    r
}

/// Whether `c` is one of the characters that HTML text must not hold raw.
pub open spec fn is_markup_char(c: char) -> bool {
    c == '<' || c == '>' || c == '"' || c == '\''
}

/// Escaped text holds no `<`, `>`, `"` or `'`.
pub proof fn lemma_escape_has_no_markup(s: Seq<char>)
    ensures
        forall|i: int| 0 <= i < escape_spec(s).len() ==> !is_markup_char(#[trigger] escape_spec(s)[i]),
    decreases s.len(),
{
    if s.len() > 0 {
        lemma_escape_has_no_markup(s.drop_last());
        reveal_strlit("&amp;");
        reveal_strlit("&lt;");
        reveal_strlit("&gt;");
        reveal_strlit("&quot;");
        reveal_strlit("&#39;");
        let a = escape_spec(s.drop_last());
        let b = escape_char(s.last());
        assert forall|i: int| 0 <= i < (a + b).len() implies !is_markup_char(#[trigger] (a + b)[i]) by {
            if i >= a.len() {
                assert((a + b)[i] == b[i - a.len()]);
            }
        }
    }
}

/// Text without `&`, `<`, `>`, `"` and `'` is its own HTML text.
pub proof fn lemma_escape_plain_identity(s: Seq<char>)
    requires
        forall|i: int| 0 <= i < s.len() ==> !is_markup_char(#[trigger] s[i]) && s[i] != '&',
    ensures
        escape_spec(s) == s,
    decreases s.len(),
{
    if s.len() > 0 {
        let t = s.drop_last();
        assert forall|i: int| 0 <= i < t.len() implies !is_markup_char(#[trigger] t[i]) && t[i] != '&' by {
            assert(t[i] == s[i]);
        }
        lemma_escape_plain_identity(t);
        assert(!is_markup_char(s[s.len() - 1]));
        assert(s =~= t + seq![s.last()]);
    }
}

/// The entity that stands for `&`.
pub open spec fn amp_entity() -> Seq<char> {
    seq!['&', 'a', 'm', 'p', ';']
}

/// The entity that stands for `<`.
pub open spec fn lt_entity() -> Seq<char> {
    seq!['&', 'l', 't', ';']
}

/// The entity that stands for `>`.
pub open spec fn gt_entity() -> Seq<char> {
    seq!['&', 'g', 't', ';']
}

/// The entity that stands for `"`.
pub open spec fn quot_entity() -> Seq<char> {
    seq!['&', 'q', 'u', 'o', 't', ';']
}

/// The entity that stands for `'`.
pub open spec fn apos_entity() -> Seq<char> {
    seq!['&', '#', '3', '9', ';']
}

/// HTML text read back: from the front, each of the five entities becomes
/// its character and every other character stays.
pub open spec fn unescape_spec(t: Seq<char>) -> Seq<char>
    decreases t.len(),
{
    if t.len() == 0 {
        seq![]
    } else if crate::keyed::is_prefix(amp_entity(), t) {
        seq!['&'] + unescape_spec(t.skip(5))
    } else if crate::keyed::is_prefix(lt_entity(), t) {
        seq!['<'] + unescape_spec(t.skip(4))
    } else if crate::keyed::is_prefix(gt_entity(), t) {
        seq!['>'] + unescape_spec(t.skip(4))
    } else if crate::keyed::is_prefix(quot_entity(), t) {
        seq!['"'] + unescape_spec(t.skip(6))
    } else if crate::keyed::is_prefix(apos_entity(), t) {
        seq!['\''] + unescape_spec(t.skip(5))
    } else {
        seq![t[0]] + unescape_spec(t.drop_first())
    }
}

proof fn lemma_escape_char_entities(c: char)
    ensures
        c == '&' ==> escape_char(c) == amp_entity(),
        c == '<' ==> escape_char(c) == lt_entity(),
        c == '>' ==> escape_char(c) == gt_entity(),
        c == '"' ==> escape_char(c) == quot_entity(),
        c == '\'' ==> escape_char(c) == apos_entity(),
{
    reveal_strlit("&amp;");
    reveal_strlit("&lt;");
    reveal_strlit("&gt;");
    reveal_strlit("&quot;");
    reveal_strlit("&#39;");
    assert("&amp;"@ =~= amp_entity());
    assert("&lt;"@ =~= lt_entity());
    assert("&gt;"@ =~= gt_entity());
    assert("&quot;"@ =~= quot_entity());
    assert("&#39;"@ =~= apos_entity());
}

/// Escaping a text that starts with `c` starts with the HTML text of `c`.
proof fn lemma_escape_front(c: char, s: Seq<char>)
    ensures
        escape_spec(seq![c] + s) == escape_char(c) + escape_spec(s),
    decreases s.len(),
{
    let t = seq![c] + s;
    if s.len() == 0 {
        assert(t.drop_last() =~= Seq::<char>::empty());
        assert(escape_spec(Seq::<char>::empty()) == Seq::<char>::empty());
        assert(escape_spec(t) =~= escape_char(c) + escape_spec(s));
    } else {
        lemma_escape_front(c, s.drop_last());
        assert(t.drop_last() =~= seq![c] + s.drop_last());
        assert(t.last() == s.last());
        assert(escape_spec(t) =~= escape_char(c) + escape_spec(s));
    }
}

/// Reading back the HTML text of `c` followed by anything gives `c` first.
proof fn lemma_unescape_front(c: char, rest: Seq<char>)
    ensures
        unescape_spec(escape_char(c) + rest) == seq![c] + unescape_spec(rest),
{
    lemma_escape_char_entities(c);
    let code = escape_char(c);
    let t = code + rest;
    if c == '&' {
        assert(t.take(5) =~= amp_entity());
        assert(t.skip(5) =~= rest);
    } else if c == '<' {
        assert(t[1] == 'l');
        assert(t.len() < 5 || t.take(5)[1] != amp_entity()[1]);
        assert(t.take(4) =~= lt_entity());
        assert(t.skip(4) =~= rest);
    } else if c == '>' {
        assert(t[1] == 'g');
        assert(t.len() < 5 || t.take(5)[1] != amp_entity()[1]);
        assert(t.len() < 4 || t.take(4)[1] != lt_entity()[1]);
        assert(t.take(4) =~= gt_entity());
        assert(t.skip(4) =~= rest);
    } else if c == '"' {
        assert(t[1] == 'q');
        assert(t.len() < 5 || t.take(5)[1] != amp_entity()[1]);
        assert(t.len() < 4 || t.take(4)[1] != lt_entity()[1]);
        assert(t.len() < 4 || t.take(4)[1] != gt_entity()[1]);
        assert(t.take(6) =~= quot_entity());
        assert(t.skip(6) =~= rest);
    } else if c == '\'' {
        assert(t[1] == '#');
        assert(t.len() < 5 || t.take(5)[1] != amp_entity()[1]);
        assert(t.len() < 4 || t.take(4)[1] != lt_entity()[1]);
        assert(t.len() < 4 || t.take(4)[1] != gt_entity()[1]);
        assert(t.len() < 6 || t.take(6)[1] != quot_entity()[1]);
        assert(t.take(5) =~= apos_entity());
        assert(t.skip(5) =~= rest);
    } else {
        assert(code == seq![c]);
        assert(t[0] == c);
        assert(t.len() < 5 || t.take(5)[0] != amp_entity()[0]);
        assert(t.len() < 4 || t.take(4)[0] != lt_entity()[0]);
        assert(t.len() < 4 || t.take(4)[0] != gt_entity()[0]);
        assert(t.len() < 6 || t.take(6)[0] != quot_entity()[0]);
        assert(t.len() < 5 || t.take(5)[0] != apos_entity()[0]);
        assert(t.drop_first() =~= rest);
    }
}

/// Escaping can be undone: reading back the HTML text of `s` gives `s`.
pub proof fn lemma_unescape_escape(s: Seq<char>)
    ensures
        unescape_spec(escape_spec(s)) == s,
    decreases s.len(),
{
    if s.len() > 0 {
        let tail = s.drop_first();
        assert(s =~= seq![s[0]] + tail);
        lemma_escape_front(s[0], tail);
        lemma_unescape_front(s[0], escape_spec(tail));
        lemma_unescape_escape(tail);
    }
}

/// Escaping is one-to-one: different texts have different HTML texts.
pub proof fn lemma_escape_injective(a: Seq<char>, b: Seq<char>)
    requires
        escape_spec(a) == escape_spec(b),
    ensures
        a == b,
{
    lemma_unescape_escape(a);
    lemma_unescape_escape(b);
}

/// `#rrggbb` in lower-case hexadecimal.
pub open spec fn rgb_hex_spec(r: u8, g: u8, b: u8) -> Seq<char> {
    seq!['#'] + hex2(r) + hex2(g) + hex2(b)
}

/// `format!("#{:02x}{:02x}{:02x}", r, g, b)`.
pub fn rgb_hex(r: u8, g: u8, b: u8) -> (s: String)
    ensures
        s@ == rgb_hex_spec(r, g, b),
{
    let mut s = String::new();
    push_char(&mut s, '#');
    push_hex2(&mut s, r);
    push_hex2(&mut s, g);
    push_hex2(&mut s, b);
    assert(s@ =~= rgb_hex_spec(r, g, b));
    s
}

/// The editor theme's colours, as CSS colour codes, that the exported page uses.
#[derive(Debug, Clone, PartialEq)]
pub struct HtmlThemeColors {
    pub background: String,
    pub editor_background: String,
    pub border: String,
    pub text: String,
    pub accent: String,
}

pub const PAGE_0: &'static str = "<!DOCTYPE html>\n<html lang=\"en\">\n<head>\n    <meta charset=\"UTF-8\">\n    <meta name=\"viewport\" content=\"width=device-width, initial-scale=1.0\">\n    <title>";
pub const PAGE_1: &'static str = " - SQL Table</title>\n    <style>\n        * { box-sizing: border-box; margin: 0; padding: 0; }\n        body {\n            font-family: system-ui, sans-serif;\n            background: ";
pub const PAGE_2: &'static str = ";\n            color: ";
pub const PAGE_3: &'static str = ";\n            padding: 20px;\n            height: calc(100vh - 40px);\n            display: flex;\n            flex-direction: column;\n        }\n        h1 {\n            color: ";
pub const PAGE_4: &'static str = ";\n            margin-bottom: 20px;\n            font-size: 1.5rem;\n            flex-shrink: 0;\n        }\n        .table-container {\n            flex: 1;\n            overflow: auto;\n            border-radius: 8px;\n            box-shadow: 0 4px 6px rgba(0, 0, 0, 0.3);\n        }\n        ::-webkit-scrollbar {\n            width: 10px;\n            height: 10px;\n        }\n        ::-webkit-scrollbar-track {\n            background: ";
pub const PAGE_5: &'static str = ";\n            border-radius: 5px;\n        }\n        ::-webkit-scrollbar-thumb {\n            background: ";
pub const PAGE_6: &'static str = ";\n            border-radius: 5px;\n        }\n        ::-webkit-scrollbar-thumb:hover {\n            background: ";
pub const PAGE_7: &'static str = ";\n        }\n        ::-webkit-scrollbar-corner {\n            background: ";
pub const PAGE_8: &'static str = ";\n        }\n        table {\n            width: 100%;\n            border-collapse: collapse;\n            background: ";
pub const PAGE_9: &'static str = ";\n        }\n        th, td {\n            padding: 10px 12px;\n            text-align: left;\n            border-bottom: 1px solid ";
pub const PAGE_10: &'static str = ";\n        }\n        th {\n            background: ";
pub const PAGE_11: &'static str = ";\n            color: ";
pub const PAGE_12: &'static str = ";\n            font-weight: 600;\n            cursor: pointer;\n            user-select: none;\n            position: sticky;\n            top: 0;\n            z-index: 10;\n        }\n        th:hover {\n            background: ";
pub const PAGE_13: &'static str = ";\n        }\n        th::after {\n            content: '';\n            display: inline-block;\n            margin-left: 8px;\n            opacity: 0.5;\n        }\n        th.asc::after {\n            content: '▲';\n        }\n        th.desc::after {\n            content: '▼';\n        }\n        tr.data-row:hover {\n            background: ";
pub const PAGE_14: &'static str = ";\n            cursor: pointer;\n        }\n        td {\n            max-width: 300px;\n            overflow: hidden;\n            text-overflow: ellipsis;\n            white-space: nowrap;\n        }\n        .row-num {\n            color: ";
pub const PAGE_15: &'static str = ";\n            font-weight: 600;\n            width: 50px;\n            text-align: center;\n            cursor: pointer;\n        }\n        .row-num:hover {\n            background: rgba(0,0,0,0.1);\n        }\n        tr.detail-row {\n            display: none;\n        }\n        tr.detail-row.open {\n            display: table-row;\n        }\n        tr.detail-row td {\n            padding: 0;\n            background: ";
pub const PAGE_16: &'static str = ";\n            border-bottom: 2px solid ";
pub const PAGE_17: &'static str = ";\n        }\n        .detail-content {\n            padding: 16px 20px;\n            display: flex;\n            flex-wrap: wrap;\n            gap: 12px;\n        }\n        .detail-item {\n            min-width: 200px;\n            padding: 8px 12px;\n            background: ";
pub const PAGE_18: &'static str = ";\n            border-radius: 6px;\n            border: 1px solid ";
pub const PAGE_19: &'static str = ";\n        }\n        .detail-label {\n            color: ";
pub const PAGE_20: &'static str = ";\n            font-weight: 600;\n            display: block;\n            margin-bottom: 4px;\n        }\n        .detail-value {\n            word-break: break-all;\n            white-space: pre-wrap;\n        }\n        .info {\n            margin-top: 15px;\n            color: ";
pub const PAGE_21: &'static str = ";\n            font-size: 0.9rem;\n        }\n    </style>\n</head>\n<body>\n    <h1>📋 ";
pub const PAGE_22: &'static str = "</h1>\n    <div class=\"table-container\">\n        <table>\n            <thead>\n                ";
pub const PAGE_23: &'static str = "\n            </thead>\n            <tbody id=\"table-body\">\n                ";
pub const PAGE_24: &'static str = "\n            </tbody>\n        </table>\n    </div>\n    <p class=\"info\">💡 Click row number to expand | Click column header to sort</p>\n\n    <script>\n        let sortCol = null;\n        let sortAsc = true;\n\n        document.querySelectorAll('.row-num').forEach(cell => {\n            cell.addEventListener('click', (e) => {\n                e.stopPropagation();\n                const row = cell.closest('tr');\n                const rowNum = row.getAttribute('data-row');\n                const detailRow = document.getElementById('detail-' + rowNum);\n                if (detailRow) {\n                    detailRow.classList.toggle('open');\n                }\n            });\n        });\n\n        document.querySelectorAll('th').forEach((th, i) => {\n            if (i === 0) return;\n            th.addEventListener('click', () => {\n                document.querySelectorAll('th').forEach(h => { h.classList.remove('asc', 'desc'); });\n\n                if (sortCol === i) {\n                    sortAsc = !sortAsc;\n                } else {\n                    sortAsc = true;\n                    sortCol = i;\n                }\n\n                th.classList.add(sortAsc ? 'asc' : 'desc');\n\n                const tbody = document.getElementById('table-body');\n                const pairs = [];\n\n                document.querySelectorAll('.data-row').forEach(dataRow => {\n                    const rowNum = dataRow.getAttribute('data-row');\n                    const detailRow = document.getElementById('detail-' + rowNum);\n                    pairs.push({ dataRow, detailRow });\n                });\n\n                pairs.sort((a, b) => {\n                    const aVal = a.dataRow.cells[i].textContent;\n                    const bVal = b.dataRow.cells[i].textContent;\n                    const aNum = parseFloat(aVal);\n                    const bNum = parseFloat(bVal);\n\n                    let result;\n                    if (!isNaN(aNum) && !isNaN(bNum)) {\n                        result = sortAsc ? aNum - bNum : bNum - aNum;\n                    } else {\n                        result = sortAsc ? aVal.localeCompare(bVal) : bVal.localeCompare(aVal);\n                    }\n                    return result;\n                });\n\n                pairs.forEach((pair, newIdx) => {\n                    const newRowNum = newIdx + 1;\n                    const oldRowNum = pair.dataRow.getAttribute('data-row');\n\n                    if (oldRowNum !== String(newRowNum)) {\n                        pair.dataRow.setAttribute('data-row', newRowNum);\n                        pair.dataRow.querySelector('.row-num').textContent = newRowNum;\n\n                        pair.detailRow.id = 'detail-' + newRowNum;\n                    }\n\n                    tbody.appendChild(pair.dataRow);\n                    if (pair.detailRow) {\n                        tbody.appendChild(pair.detailRow);\n                    }\n                });\n            });\n        });\n    </script>\n</body>\n</html>";

pub const ROW_0: &'static str = "<tr class=\"data-row\" data-row=\"";
pub const ROW_1: &'static str = "\">\n            <td class=\"row-num\">";
pub const ROW_2: &'static str = "</td>\n            ";
pub const ROW_3: &'static str = "\n        </tr>\n        <tr class=\"detail-row\" id=\"detail-";
pub const ROW_4: &'static str = "\">\n            <td colspan=\"";
pub const ROW_5: &'static str = "\">\n                <div class=\"detail-content\">\n                    ";
pub const ROW_6: &'static str = "\n                </div>\n            </td>\n        </tr>";

/// The header row: `#`, then each column name.
pub open spec fn header_cells_spec(cols: Seq<ColumnInfo>) -> Seq<char>
    decreases cols.len(),
{
    if cols.len() == 0 {
        seq![]
    } else {
        header_cells_spec(cols.drop_last()) + "<th>"@ + escape_spec(cols.last().name@) + "</th>"@
    }
}

pub open spec fn header_row_spec(cols: Seq<ColumnInfo>) -> Seq<char> {
    "<tr><th>#</th>"@ + header_cells_spec(cols) + "</tr>"@
}

/// The text of a row's cell in a column: empty when the row lacks the column.
pub open spec fn cell_value_spec(row: JsonRow, col: ColumnInfo) -> Seq<char> {
    match row_get(row, col.name@) {
        Some(v) => html_cell_text(v, col.data_type@),
        None => seq![],
    }
}

/// The table cells of a row.
pub open spec fn cells_spec(row: JsonRow, cols: Seq<ColumnInfo>) -> Seq<char>
    decreases cols.len(),
{
    if cols.len() == 0 {
        seq![]
    } else {
        cells_spec(row, cols.drop_last()) + "<td>"@ + escape_spec(cell_value_spec(row, cols.last()))
            + "</td>"@
    }
}

/// The detail items of a row: each column name with the row's value.
pub open spec fn details_spec(row: JsonRow, cols: Seq<ColumnInfo>) -> Seq<char>
    decreases cols.len(),
{
    if cols.len() == 0 {
        seq![]
    } else {
        details_spec(row, cols.drop_last())
            + "<div class=\"detail-item\"><span class=\"detail-label\">"@ + escape_spec(
            cols.last().name@,
        ) + ":</span> <span class=\"detail-value\">"@ + escape_spec(
            cell_value_spec(row, cols.last()),
        ) + "</span></div>"@
    }
}

/// The two table rows of data row number `n`: the data row and its detail row.
pub open spec fn row_html_spec(row: JsonRow, cols: Seq<ColumnInfo>, n: nat) -> Seq<char> {
    ROW_0@ + decimal(n) + ROW_1@ + decimal(n) + ROW_2@ + cells_spec(row, cols) + ROW_3@ + decimal(n)
        + ROW_4@ + decimal(cols.len() + 1) + ROW_5@ + details_spec(row, cols) + ROW_6@
}

/// The table body: every row, numbered from 1.
pub open spec fn tbody_spec(rows: Seq<JsonRow>, cols: Seq<ColumnInfo>) -> Seq<char>
    decreases rows.len(),
{
    if rows.len() == 0 {
        seq![]
    } else {
        tbody_spec(rows.drop_last(), cols) + row_html_spec(rows.last(), cols, rows.len())
    }
}

/// The exported page around a title, a header row and a table body.
pub open spec fn page_spec(
    title: Seq<char>,
    header_row: Seq<char>,
    tbody: Seq<char>,
    colors: HtmlThemeColors,
) -> Seq<char> {
    PAGE_0@ + title + PAGE_1@ + colors.background@ + PAGE_2@ + colors.text@ + PAGE_3@ + colors.accent@ + PAGE_4@ + colors.border@ + PAGE_5@ + colors.accent@ + PAGE_6@ + colors.text@ + PAGE_7@ + colors.border@ + PAGE_8@ + colors.editor_background@ + PAGE_9@ + colors.border@ + PAGE_10@ + colors.editor_background@ + PAGE_11@ + colors.accent@ + PAGE_12@ + colors.border@ + PAGE_13@ + colors.border@ + PAGE_14@ + colors.accent@ + PAGE_15@ + colors.background@ + PAGE_16@ + colors.border@ + PAGE_17@ + colors.editor_background@ + PAGE_18@ + colors.border@ + PAGE_19@ + colors.accent@ + PAGE_20@ + colors.accent@ + PAGE_21@ + title + PAGE_22@ + header_row + PAGE_23@ + tbody + PAGE_24@
}

/// The text of a row's cell in a column.
pub fn cell_value(row: &JsonRow, col: &ColumnInfo) -> (r: String)
    ensures
        r@ == cell_value_spec(*row, *col),
{
    match row.get(col.name.as_str()) {
        Some(v) => html_cell(v, col.data_type.as_str()),
        None => String::new(),
    }
}

fn header_row(cols: &Vec<ColumnInfo>) -> (r: String)
    ensures
        r@ == header_row_spec(cols@),
{
    let mut r = to_owned_string("<tr><th>#</th>");
    let mut i: usize = 0;
    while i < cols.len()
        invariant
            i <= cols.len(),
            r@ == "<tr><th>#</th>"@ + header_cells_spec(cols@.take(i as int)),
        decreases cols.len() - i,
    {
        assert(cols@.take(i + 1).drop_last() =~= cols@.take(i as int));
        push_str(&mut r, "<th>");
        push_escaped(&mut r, cols[i].name.as_str());
        push_str(&mut r, "</th>");
        assert(r@ =~= "<tr><th>#</th>"@ + header_cells_spec(cols@.take(i + 1)));
        i = i + 1;
    }
    assert(cols@.take(cols.len() as int) =~= cols@);
    push_str(&mut r, "</tr>");
    r
}

fn row_html(out: &mut String, row: &JsonRow, cols: &Vec<ColumnInfo>, n: usize)
    requires
        cols@.len() < usize::MAX,
    ensures
        final(out)@ == old(out)@ + row_html_spec(*row, cols@, n as nat),
{
    let mut cells = String::new();
    let mut details = String::new();
    let mut i: usize = 0;
    while i < cols.len()
        invariant
            i <= cols.len(),
            cells@ == cells_spec(*row, cols@.take(i as int)),
            details@ == details_spec(*row, cols@.take(i as int)),
        decreases cols.len() - i,
    {
        assert(cols@.take(i + 1).drop_last() =~= cols@.take(i as int));
        let value = cell_value(row, &cols[i]);
        push_str(&mut cells, "<td>");
        push_escaped(&mut cells, value.as_str());
        push_str(&mut cells, "</td>");
        push_str(&mut details, "<div class=\"detail-item\"><span class=\"detail-label\">");
        push_escaped(&mut details, cols[i].name.as_str());
        push_str(&mut details, ":</span> <span class=\"detail-value\">");
        push_escaped(&mut details, value.as_str());
        push_str(&mut details, "</span></div>");
        assert(cells@ =~= cells_spec(*row, cols@.take(i + 1)));
        assert(details@ =~= details_spec(*row, cols@.take(i + 1)));
        i = i + 1;
    }
    assert(cols@.take(cols.len() as int) =~= cols@);
    let ghost start = out@;
    push_str(out, ROW_0);
    push_decimal(out, n);
    push_str(out, ROW_1);
    push_decimal(out, n);
    push_str(out, ROW_2);
    push_str(out, cells.as_str());
    push_str(out, ROW_3);
    push_decimal(out, n);
    push_str(out, ROW_4);
    push_decimal(out, cols.len() + 1);
    push_str(out, ROW_5);
    push_str(out, details.as_str());
    push_str(out, ROW_6);
    assert(out@ =~= start + row_html_spec(*row, cols@, n as nat));
}

fn tbody(rows: &Vec<JsonRow>, cols: &Vec<ColumnInfo>) -> (r: String)
    requires
        cols@.len() < usize::MAX,
    ensures
        r@ == tbody_spec(rows@, cols@),
{
    let mut r = String::new();
    let mut i: usize = 0;
    while i < rows.len()
        invariant
            i <= rows.len(),
            cols@.len() < usize::MAX,
            r@ == tbody_spec(rows@.take(i as int), cols@),
        decreases rows.len() - i,
    {
        assert(rows@.take(i + 1).drop_last() =~= rows@.take(i as int));
        assert(rows@.take(i + 1).last() == rows@[i as int]);
        row_html(&mut r, &rows[i], cols, i + 1);
        i = i + 1;
    }
    assert(rows@.take(rows.len() as int) =~= rows@);
    r
}

/// The self-contained HTML page that shows `data` as a table with sortable
/// columns and expandable rows, titled with the table's name and coloured with `colors`.
pub fn generate_interactive_html_table(
    table_name: &str,
    columns: &Vec<ColumnInfo>,
    data: &Vec<JsonRow>,
    colors: &HtmlThemeColors,
) -> (r: String)
    requires
        columns@.len() < usize::MAX,
    ensures
        r@ == page_spec(
            escape_spec(table_name@),
            header_row_spec(columns@),
            tbody_spec(data@, columns@),
            *colors,
        ),
{
    let title = escape_html(table_name);
    let header_row = header_row(columns);
    let tbody = tbody(data, columns);
    let mut r = String::new();
    push_str(&mut r, PAGE_0);
    push_str(&mut r, title.as_str());
    push_str(&mut r, PAGE_1);
    push_str(&mut r, colors.background.as_str());
    push_str(&mut r, PAGE_2);
    push_str(&mut r, colors.text.as_str());
    push_str(&mut r, PAGE_3);
    push_str(&mut r, colors.accent.as_str());
    push_str(&mut r, PAGE_4);
    push_str(&mut r, colors.border.as_str());
    push_str(&mut r, PAGE_5);
    push_str(&mut r, colors.accent.as_str());
    push_str(&mut r, PAGE_6);
    push_str(&mut r, colors.text.as_str());
    push_str(&mut r, PAGE_7);
    push_str(&mut r, colors.border.as_str());
    push_str(&mut r, PAGE_8);
    push_str(&mut r, colors.editor_background.as_str());
    push_str(&mut r, PAGE_9);
    push_str(&mut r, colors.border.as_str());
    push_str(&mut r, PAGE_10);
    push_str(&mut r, colors.editor_background.as_str());
    push_str(&mut r, PAGE_11);
    push_str(&mut r, colors.accent.as_str());
    push_str(&mut r, PAGE_12);
    push_str(&mut r, colors.border.as_str());
    push_str(&mut r, PAGE_13);
    push_str(&mut r, colors.border.as_str());
    push_str(&mut r, PAGE_14);
    push_str(&mut r, colors.accent.as_str());
    push_str(&mut r, PAGE_15);
    push_str(&mut r, colors.background.as_str());
    push_str(&mut r, PAGE_16);
    push_str(&mut r, colors.border.as_str());
    push_str(&mut r, PAGE_17);
    push_str(&mut r, colors.editor_background.as_str());
    push_str(&mut r, PAGE_18);
    push_str(&mut r, colors.border.as_str());
    push_str(&mut r, PAGE_19);
    push_str(&mut r, colors.accent.as_str());
    push_str(&mut r, PAGE_20);
    push_str(&mut r, colors.accent.as_str());
    push_str(&mut r, PAGE_21);
    push_str(&mut r, title.as_str());
    push_str(&mut r, PAGE_22);
    push_str(&mut r, header_row.as_str());
    push_str(&mut r, PAGE_23);
    push_str(&mut r, tbody.as_str());
    push_str(&mut r, PAGE_24);
    r
}

/// What the UUID library prints for a fresh random (version 4) UUID: 36
/// characters, lower-case hexadecimal digits with hyphens at 8, 13, 18 and 23.
pub open spec fn is_uuid_text(u: Seq<char>) -> bool {
    &&& u.len() == 36
    &&& forall|i: int|
        0 <= i < 36 ==> if i == 8 || i == 13 || i == 18 || i == 23 {
            #[trigger] u[i] == '-'
        } else {
            ('0' <= u[i] <= '9') || ('a' <= u[i] <= 'f')
        }
}

/// `uuid::Uuid::new_v4()` printed with `Display`. The value is random; the
/// contract states its shape, which the crate's formatting code fixes. The
/// crate panics when the system's random source fails, which no argument decides.
#[verifier::external_body]
fn new_uuid_text() -> (r: String)
    ensures
        is_uuid_text(r@),
{
    uuid::Uuid::new_v4().to_string()
}

/// The name of the file an export is written to, around a UUID text.
pub open spec fn export_file_name_spec(uuid: Seq<char>) -> Seq<char> {
    "sql_table_"@ + uuid + ".html"@
}

/// The name of the file an export with the given UUID text is written to.
pub fn export_file_name_for(uuid: &str) -> (r: String)
    ensures
        r@ == export_file_name_spec(uuid@),
{
    let mut r = to_owned_string("sql_table_");
    push_str(&mut r, uuid);
    push_str(&mut r, ".html");
    r
}

/// The name of the file an export is written to: `sql_table_{uuid}.html` with a fresh random UUID.
pub fn export_file_name() -> (r: String)
    ensures
        exists|u: Seq<char>| is_uuid_text(u) && r@ == export_file_name_spec(u),
{
    let u = new_uuid_text();
    let r = export_file_name_for(u.as_str());
    assert(r@ == export_file_name_spec(u@));
    r
}

} // verus!
