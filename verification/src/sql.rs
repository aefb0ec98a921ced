//! The SQL that the explorer sends, the HTTP request that carries it, and
//! what the explorer takes from the answers.
use vstd::prelude::*;
use base64::Engine;
use serde_json::Value;
use serde_json::Value::{Array, Bool, Null, Number};
use vstd::utf8::encode_utf8;
use crate::json::{JsonRow, JsonValue, QueryResponse, row_get, value_as_str};
use crate::models::{AuthConfig, HostConfig};
use crate::text::{push_char, push_decimal, push_str, to_owned_string, decimal, hex2, trim_spec, is_blank};

verus! {

/// Lists the schemas of a host, leaving out `pg_*` and `information_schema`.
pub const SCHEMAS_SQL: &'static str = "\n            SELECT nspname AS schema_name\n            FROM pg_catalog.pg_namespace\n            WHERE nspname !~ '^pg_'\n            AND nspname <> 'information_schema'\n            ORDER BY nspname\n        ";

pub const TABLES_SQL_HEAD: &'static str = "\n                SELECT table_name\n                FROM information_schema.tables\n                WHERE table_schema = '";

pub const TABLES_SQL_TAIL: &'static str = "'\n                ORDER BY table_name\n            ";

pub const COLUMNS_SQL_HEAD: &'static str = "SELECT column_name, data_type FROM information_schema.columns\n             WHERE table_schema = '";

pub const COLUMNS_SQL_MID: &'static str = "' AND table_name = '";

pub const COLUMNS_SQL_TAIL: &'static str = "' ORDER BY ordinal_position";

/// The path of a host's SQL endpoint.
pub const QUERY_PATH: &'static str = "/api/v1/dev/query-sql";

pub const DDL_0: &'static str = "\nWITH cols AS (\n    SELECT\n        column_name,\n        data_type,\n        character_maximum_length,\n        is_nullable,\n        column_default,\n        ordinal_position\n    FROM information_schema.columns\n    WHERE table_schema = '";
pub const DDL_1: &'static str = "' AND table_name = '";
pub const DDL_2: &'static str = "'\n    ORDER BY ordinal_position\n),\npk AS (\n    SELECT string_agg(quote_ident(column_name), ', ') as pk_columns\n    FROM information_schema.key_column_usage kcu\n    JOIN information_schema.table_constraints tc\n        ON kcu.constraint_name = tc.constraint_name\n    WHERE tc.table_schema = '";
pub const DDL_3: &'static str = "'\n      AND tc.table_name = '";
pub const DDL_4: &'static str = "'\n      AND tc.constraint_type = 'PRIMARY KEY'\n),\nfk AS (\n    SELECT\n        tc.constraint_name,\n        string_agg(DISTINCT quote_ident(kcu.column_name), ', ') as fk_columns,\n        ccu.table_schema as ref_schema,\n        ccu.table_name as ref_table,\n        string_agg(DISTINCT quote_ident(ccu.column_name), ', ') as ref_columns,\n        rc.update_rule,\n        rc.delete_rule\n    FROM information_schema.table_constraints tc\n    JOIN information_schema.key_column_usage kcu\n        ON tc.constraint_name = kcu.constraint_name\n    JOIN information_schema.constraint_column_usage ccu\n        ON tc.constraint_name = ccu.constraint_name\n    JOIN information_schema.referential_constraints rc\n        ON tc.constraint_name = rc.constraint_name\n    WHERE tc.table_schema = '";
pub const DDL_5: &'static str = "'\n      AND tc.table_name = '";
pub const DDL_6: &'static str = "'\n      AND tc.constraint_type = 'FOREIGN KEY'\n    GROUP BY tc.constraint_name, ccu.table_schema, ccu.table_name, rc.update_rule, rc.delete_rule\n),\nindexes AS (\n    SELECT string_agg(indexdef || ';', E'\\n') as index_statements\n    FROM pg_indexes\n    WHERE schemaname = '";
pub const DDL_7: &'static str = "' AND tablename = '";
pub const DDL_8: &'static str = "'\n)\nSELECT\n    'CREATE TABLE ' || quote_ident('";
pub const DDL_9: &'static str = "') || '.' || quote_ident('";
pub const DDL_10: &'static str = "') || E'\\n(\\n' ||\n    string_agg(\n        '    ' || quote_ident(column_name) || ' ' ||\n        CASE\n            WHEN data_type = 'character varying' THEN 'varchar(' || COALESCE(character_maximum_length::text, '255') || ')'\n            WHEN data_type = 'character' THEN 'char(' || character_maximum_length::text || ')'\n            ELSE data_type\n        END ||\n        CASE WHEN is_nullable = 'NO' THEN ' NOT NULL' ELSE '' END ||\n        COALESCE(' DEFAULT ' || column_default, ''),\n        E',\\n'\n        ORDER BY ordinal_position\n    ) || E'\\n);' ||\n    COALESCE(E'\\n\\n-- Primary Key:\\nALTER TABLE ' || quote_ident('";
pub const DDL_11: &'static str = "') || '.' || quote_ident('";
pub const DDL_12: &'static str = "') ||\n             ' ADD PRIMARY KEY (' || pk_columns || ');', '') ||\n    COALESCE(\n        (SELECT string_agg(\n            E'\\n-- Foreign Key:\\nALTER TABLE ' || quote_ident('";
pub const DDL_13: &'static str = "') || '.' || quote_ident('";
pub const DDL_14: &'static str = "') ||\n            ' ADD CONSTRAINT ' || quote_ident(constraint_name) ||\n            ' FOREIGN KEY (' || fk_columns || ') REFERENCES ' ||\n            quote_ident(ref_schema) || '.' || quote_ident(ref_table) ||\n            ' (' || ref_columns || ')' ||\n            CASE WHEN delete_rule != 'NO ACTION' THEN ' ON DELETE ' || delete_rule ELSE '' END ||\n            CASE WHEN update_rule != 'NO ACTION' THEN ' ON UPDATE ' || update_rule ELSE '' END || ';',\n            ''\n        ) FROM fk),\n        ''\n    ) ||\n    COALESCE(E'\\n\\n-- Indexes:\\n' || index_statements, '') as full_ddl\nFROM cols\nLEFT JOIN pk ON true\nLEFT JOIN indexes ON true\nGROUP BY pk_columns, index_statements;\n            ";

/// `s` with every `'` doubled, as it must stand inside a SQL string literal.
pub open spec fn sql_quote(s: Seq<char>) -> Seq<char>
    decreases s.len(),
{
    if s.len() == 0 {
        seq![]
    } else {
        sql_quote(s.drop_last()) + if s.last() == '\'' {
            seq!['\'', '\'']
        } else {
            seq![s.last()]
        }
    }
}

/// Appends `s` with every `'` doubled (`s.replace("'", "''")`).
pub fn push_sql_quoted(out: &mut String, s: &str)
    ensures
        final(out)@ == old(out)@ + sql_quote(s@),
{
    let ghost start = out@;
    for c in it: s.chars()
        invariant
            it.seq() == s@,
            out@ == start + sql_quote(s@.take(it.index() as int)),
    {
        let ghost before = out@;
        assert(s@.take(it.index() + 1).drop_last() =~= s@.take(it.index() as int));
        if c == '\'' {
            push_char(out, '\'');
            push_char(out, '\'');
        } else {
            push_char(out, c);
        }
        assert(out@ =~= start + sql_quote(s@.take(it.index() + 1)));
    }
    assert(s@.take(s@.len() as int) =~= s@);
}

/// Text without `'` goes into a SQL string literal unchanged.
pub proof fn lemma_sql_quote_plain(s: Seq<char>)
    requires
        forall|i: int| 0 <= i < s.len() ==> #[trigger] s[i] != '\'',
    ensures
        sql_quote(s) == s,
    decreases s.len(),
{
    if s.len() > 0 {
        let t = s.drop_last();
        assert forall|i: int| 0 <= i < t.len() implies #[trigger] t[i] != '\'' by {
            assert(t[i] == s[i]);
        }
        lemma_sql_quote_plain(t);
        assert(s[s.len() - 1] != '\'');
        assert(s =~= t + seq![s.last()]);
    }
}

/// The number of `'` in `s`.
pub open spec fn quote_count(s: Seq<char>) -> nat
    decreases s.len(),
{
    if s.len() == 0 {
        0
    } else {
        quote_count(s.drop_last()) + if s.last() == '\'' {
            1nat
        } else {
            0nat
        }
    }
}

/// Quoting doubles every `'` and keeps every other character: the quoted
/// text has one more character for each `'` it quotes.
pub proof fn lemma_sql_quote_len(s: Seq<char>)
    ensures
        sql_quote(s).len() == s.len() + quote_count(s),
    decreases s.len(),
{
    if s.len() > 0 {
        lemma_sql_quote_len(s.drop_last());
    }
}

/// The query that lists the tables of `schema`.
pub open spec fn tables_sql_spec(schema: Seq<char>) -> Seq<char> {
    TABLES_SQL_HEAD@ + sql_quote(schema) + TABLES_SQL_TAIL@
}

pub fn tables_sql(schema: &str) -> (r: String)
    ensures
        r@ == tables_sql_spec(schema@),
{
    let mut r = String::new();
    push_str(&mut r, TABLES_SQL_HEAD);
    push_sql_quoted(&mut r, schema);
    push_str(&mut r, TABLES_SQL_TAIL);
    r
}

/// The query that lists the columns (name and type) of `schema.table` in order.
pub open spec fn columns_sql_spec(schema: Seq<char>, table: Seq<char>) -> Seq<char> {
    COLUMNS_SQL_HEAD@ + sql_quote(schema) + COLUMNS_SQL_MID@ + sql_quote(table) + COLUMNS_SQL_TAIL@
}

pub fn columns_sql(schema: &str, table: &str) -> (r: String)
    ensures
        r@ == columns_sql_spec(schema@, table@),
{
    let mut r = String::new();
    push_str(&mut r, COLUMNS_SQL_HEAD);
    push_sql_quoted(&mut r, schema);
    push_str(&mut r, COLUMNS_SQL_MID);
    push_sql_quoted(&mut r, table);
    push_str(&mut r, COLUMNS_SQL_TAIL);
    r
}

/// The query that renders the DDL of `schema.table` (the names go in as they are).
pub open spec fn ddl_sql_spec(schema: Seq<char>, table: Seq<char>) -> Seq<char> {
    DDL_0@ + schema + DDL_1@ + table + DDL_2@ + schema + DDL_3@ + table + DDL_4@ + schema + DDL_5@ + table + DDL_6@ + schema + DDL_7@ + table + DDL_8@ + schema + DDL_9@ + table + DDL_10@ + schema + DDL_11@ + table + DDL_12@ + schema + DDL_13@ + table + DDL_14@
}

pub fn ddl_sql(schema: &str, table: &str) -> (r: String)
    ensures
        r@ == ddl_sql_spec(schema@, table@),
{
    let mut r = String::new();
    push_str(&mut r, DDL_0);
    push_str(&mut r, schema);
    push_str(&mut r, DDL_1);
    push_str(&mut r, table);
    push_str(&mut r, DDL_2);
    push_str(&mut r, schema);
    push_str(&mut r, DDL_3);
    push_str(&mut r, table);
    push_str(&mut r, DDL_4);
    push_str(&mut r, schema);
    push_str(&mut r, DDL_5);
    push_str(&mut r, table);
    push_str(&mut r, DDL_6);
    push_str(&mut r, schema);
    push_str(&mut r, DDL_7);
    push_str(&mut r, table);
    push_str(&mut r, DDL_8);
    push_str(&mut r, schema);
    push_str(&mut r, DDL_9);
    push_str(&mut r, table);
    push_str(&mut r, DDL_10);
    push_str(&mut r, schema);
    push_str(&mut r, DDL_11);
    push_str(&mut r, table);
    push_str(&mut r, DDL_12);
    push_str(&mut r, schema);
    push_str(&mut r, DDL_13);
    push_str(&mut r, table);
    push_str(&mut r, DDL_14);
    r
}

/// A column of a table: its name and its SQL type name.
#[derive(Debug, Clone, PartialEq)]
pub struct ColumnInfo {
    pub name: String,
    pub data_type: String,
}

/// `schema.table`, or `table` alone when the schema is empty.
pub open spec fn full_table_name_spec(schema: Seq<char>, table: Seq<char>) -> Seq<char> {
    if schema.len() == 0 {
        table
    } else {
        schema + "."@ + table
    }
}

pub fn full_table_name(schema: &str, table: &str) -> (r: String)
    ensures
        r@ == full_table_name_spec(schema@, table@),
{
    if schema.is_empty() {
        to_owned_string(table)
    } else {
        let mut r = to_owned_string(schema);
        push_str(&mut r, ".");
        push_str(&mut r, table);
        r
    }
}

/// A column name in double quotes.
pub open spec fn quoted_name(c: ColumnInfo) -> Seq<char> {
    "\""@ + c.name@ + "\""@
}

/// The quoted names of `cols`, joined by `", "`.
pub open spec fn quoted_names(cols: Seq<ColumnInfo>) -> Seq<char>
    decreases cols.len(),
{
    if cols.len() == 0 {
        seq![]
    } else if cols.len() == 1 {
        quoted_name(cols[0])
    } else {
        quoted_names(cols.drop_last()) + ", "@ + quoted_name(cols.last())
    }
}

/// What the data query selects: `*` when no column is known, else the quoted column names.
pub open spec fn select_list_spec(cols: Seq<ColumnInfo>) -> Seq<char> {
    if cols.len() == 0 {
        "*"@
    } else {
        quoted_names(cols)
    }
}

pub fn select_list(cols: &Vec<ColumnInfo>) -> (r: String)
    ensures
        r@ == select_list_spec(cols@),
{
    if cols.len() == 0 {
        return to_owned_string("*");
    }
    let mut r = String::new();
    let mut i: usize = 0;
    while i < cols.len()
        invariant
            i <= cols.len(),
            r@ == quoted_names(cols@.take(i as int)),
        decreases cols.len() - i,
    {
        assert(cols@.take(i + 1).drop_last() =~= cols@.take(i as int));
        if i > 0 {
            push_str(&mut r, ", ");
        }
        push_str(&mut r, "\"");
        push_str(&mut r, cols[i].name.as_str());
        push_str(&mut r, "\"");
        proof {
            if i == 0 {
                assert(r@ =~= quoted_name(cols@[0]));
            } else {
                assert(r@ =~= quoted_names(cols@.take(i as int)) + ", "@ + quoted_name(cols@[i as int]));
            }
        }
        i = i + 1;
    }
    assert(cols@.take(cols.len() as int) =~= cols@);
    r
}

/// The select list of no column is `*`; that of one column is its name in
/// double quotes; and adding a column to a non-empty list appends `, ` and the
/// new name in double quotes. So every two neighbouring names stand apart by
/// exactly `, `.
pub proof fn lemma_select_list_push(cols: Seq<ColumnInfo>, c: ColumnInfo)
    ensures
        select_list_spec(seq![]) == "*"@,
        cols.len() == 0 ==> select_list_spec(cols.push(c)) == "\""@ + c.name@ + "\""@,
        cols.len() > 0 ==> select_list_spec(cols.push(c)) == select_list_spec(cols) + ", \""@
            + c.name@ + "\""@,
{
    let n = cols.push(c);
    assert(n.drop_last() =~= cols);
    assert(n.last() == c);
    if cols.len() == 0 {
        assert(n[0] == c);
    } else {
        reveal_strlit(", ");
        reveal_strlit("\"");
        reveal_strlit(", \"");
        assert(", \""@ =~= ", "@ + "\""@);
        assert(quoted_names(n) == quoted_names(cols) + ", "@ + quoted_name(c));
        assert(select_list_spec(n) =~= select_list_spec(cols) + ", \""@ + c.name@ + "\""@);
    }
}

/// The `WHERE` part of the data query: empty when the filter is blank.
pub open spec fn where_part_spec(clause: Seq<char>) -> Seq<char> {
    if trim_spec(clause).len() == 0 {
        seq![]
    } else {
        "WHERE "@ + clause
    }
}

pub fn where_part(clause: &str) -> (r: String)
    ensures
        r@ == where_part_spec(clause@),
{
    if is_blank(clause) {
        String::new()
    } else {
        let mut r = to_owned_string("WHERE ");
        push_str(&mut r, clause);
        r
    }
}

/// The `ORDER BY` part of the data query: the typed ordering if it is not
/// blank, else the sort column and direction if a column is chosen, else empty.
pub open spec fn order_part_spec(
    order_by: Seq<char>,
    sort_column: Option<Seq<char>>,
    sort_direction: Seq<char>,
) -> Seq<char> {
    if trim_spec(order_by).len() != 0 {
        "ORDER BY "@ + order_by
    } else {
        match sort_column {
            Some(col) => "ORDER BY \""@ + col + "\" "@ + sort_direction,
            None => seq![],
        }
    }
}

/// The view of an optional string.
pub open spec fn opt_view(s: Option<String>) -> Option<Seq<char>> {
    match s {
        Some(t) => Some(t@),
        None => None,
    }
}

pub fn order_part(order_by: &str, sort_column: &Option<String>, sort_direction: &str) -> (r: String)
    ensures
        r@ == order_part_spec(order_by@, opt_view(*sort_column), sort_direction@),
{
    if !is_blank(order_by) {
        let mut r = to_owned_string("ORDER BY ");
        push_str(&mut r, order_by);
        r
    } else {
        match sort_column {
            Some(col) => {
                let mut r = to_owned_string("ORDER BY \"");
                push_str(&mut r, col.as_str());
                push_str(&mut r, "\" ");
                push_str(&mut r, sort_direction);
                r
            },
            None => String::new(),
        }
    }
}

/// The data query: `SELECT {select} FROM {table} {where} {order} LIMIT {limit} OFFSET {offset}`.
pub open spec fn data_sql_spec(
    select: Seq<char>,
    table: Seq<char>,
    where_part: Seq<char>,
    order_part: Seq<char>,
    limit: nat,
    offset: nat,
) -> Seq<char> {
    "SELECT "@ + select + " FROM "@ + table + " "@ + where_part + " "@ + order_part + " LIMIT "@
        + decimal(limit) + " OFFSET "@ + decimal(offset)
}

pub fn data_sql(
    select: &str,
    table: &str,
    where_part: &str,
    order_part: &str,
    limit: usize,
    offset: usize,
) -> (r: String)
    ensures
        r@ == data_sql_spec(
            select@,
            table@,
            where_part@,
            order_part@,
            limit as nat,
            offset as nat,
        ),
{
    let mut r = to_owned_string("SELECT ");
    push_str(&mut r, select);
    push_str(&mut r, " FROM ");
    push_str(&mut r, table);
    push_str(&mut r, " ");
    push_str(&mut r, where_part);
    push_str(&mut r, " ");
    push_str(&mut r, order_part);
    push_str(&mut r, " LIMIT ");
    push_decimal(&mut r, limit);
    push_str(&mut r, " OFFSET ");
    push_decimal(&mut r, offset);
    r
}

/// The count query: `SELECT COUNT(*) as cnt FROM {table} {where}`.
pub open spec fn count_sql_spec(table: Seq<char>, where_part: Seq<char>) -> Seq<char> {
    "SELECT COUNT(*) as cnt FROM "@ + table + " "@ + where_part
}

pub fn count_sql(table: &str, where_part: &str) -> (r: String)
    ensures
        r@ == count_sql_spec(table@, where_part@),
{
    let mut r = to_owned_string("SELECT COUNT(*) as cnt FROM ");
    push_str(&mut r, table);
    push_str(&mut r, " ");
    push_str(&mut r, where_part);
    r
}

// ------------------------------------------------------------------------
// The HTTP request
// ------------------------------------------------------------------------

/// The character of a 6-bit value in the standard base64 alphabet
/// (`A`-`Z`, `a`-`z`, `0`-`9`, `+`, `/`).
pub open spec fn base64_digit(x: nat) -> char {
    if x < 26 {
        (('A' as int) + x) as char
    } else if x < 52 {
        (('a' as int) + (x - 26)) as char
    } else if x < 62 {
        (('0' as int) + (x - 52)) as char
    } else if x == 62 {
        '+'
    } else {
        '/'
    }
}

/// Standard base64 with padding: each group of 3 bytes becomes 4 characters
/// of 6 bits each; a last group of 1 or 2 bytes is padded with `=`.
pub open spec fn base64_spec(b: Seq<u8>) -> Seq<char>
    decreases b.len(),
{
    if b.len() == 0 {
        seq![]
    } else if b.len() == 1 {
        seq![base64_digit((b[0] / 4) as nat), base64_digit(((b[0] % 4) * 16) as nat), '=', '=']
    } else if b.len() == 2 {
        seq![
            base64_digit((b[0] / 4) as nat),
            base64_digit(((b[0] % 4) * 16 + b[1] / 16) as nat),
            base64_digit(((b[1] % 16) * 4) as nat),
            '=',
        ]
    } else {
        seq![
            base64_digit((b[0] / 4) as nat),
            base64_digit(((b[0] % 4) * 16 + b[1] / 16) as nat),
            base64_digit(((b[1] % 16) * 4 + b[2] / 64) as nat),
            base64_digit((b[2] % 64) as nat),
        ] + base64_spec(b.skip(3))
    }
}

/// Whether the base64 engine can size its output for `n` input bytes without overflow.
pub open spec fn base64_fits(n: nat) -> bool {
    (n / 3) * 4 + (if n % 3 > 0 {
        4nat
    } else {
        0nat
    }) <= usize::MAX
}

/// `base64::engine::general_purpose::STANDARD.encode` (`Engine::encode`):
/// standard alphabet with `=` padding, as the crate's alphabet and encoder
/// define it. The engine panics where the output length overflows `usize`,
/// which `requires` leaves out.
#[verifier::external_body]
fn base64_encode(bytes: &[u8]) -> (r: String)
    requires
        base64_fits(bytes@.len()),
    ensures
        r@ == base64_spec(bytes@),
{
    base64::engine::general_purpose::STANDARD.encode(bytes)
}

/// A character as a JSON string holds it: `"` and `\` behind a backslash,
/// backspace, tab, line feed, form feed and carriage return as `\b`, `\t`,
/// `\n`, `\f`, `\r`, other characters below U+0020 as `\u00` and two
/// lower-case hexadecimal digits, every other character as it is.
pub open spec fn json_escape_char(c: char) -> Seq<char> {
    if c == '"' {
        seq!['\\', '"']
    } else if c == '\\' {
        seq!['\\', '\\']
    } else if c == '\x08' {
        seq!['\\', 'b']
    } else if c == '\t' {
        seq!['\\', 't']
    } else if c == '\n' {
        seq!['\\', 'n']
    } else if c == '\x0C' {
        seq!['\\', 'f']
    } else if c == '\r' {
        seq!['\\', 'r']
    } else if (c as u32) < 0x20 {
        seq!['\\', 'u', '0', '0'] + hex2(c as u8)
    } else {
        seq![c]
    }
}

/// The escaped characters of a JSON string.
pub open spec fn json_escape(s: Seq<char>) -> Seq<char>
    decreases s.len(),
{
    if s.len() == 0 {
        seq![]
    } else {
        json_escape(s.drop_last()) + json_escape_char(s.last())
    }
}

/// `s` as a JSON string literal.
pub open spec fn json_string_spec(s: Seq<char>) -> Seq<char> {
    seq!['"'] + json_escape(s) + seq!['"']
}

/// The compact JSON text of an object with one string member.
pub open spec fn json_object_spec(key: Seq<char>, value: Seq<char>) -> Seq<char> {
    seq!['{'] + json_string_spec(key) + seq![':'] + json_string_spec(value) + seq!['}']
}

/// The object `{key: value}` with both as JSON strings, printed by
/// `serde_json` (`Value::Object(..).to_string()`, the compact format). The
/// contract states what the crate's string escaping table and compact
/// formatter write.
#[verifier::external_body]
fn json_string_object(key: &str, value: &str) -> (r: String)
    ensures
        r@ == json_object_spec(key@, value@),
{
    let mut object = serde_json::Map::new();
    object.insert(key.to_string(), serde_json::Value::String(value.to_string()));
    serde_json::Value::Object(object).to_string()
}

/// The body of a request that runs `sql`: `{"sql": sql}`.
pub open spec fn sql_body_spec(sql: Seq<char>) -> Seq<char> {
    json_object_spec("sql"@, sql)
}

/// The `user:password` text of basic authentication.
pub open spec fn basic_credentials(user: Seq<char>, password: Seq<char>) -> Seq<char> {
    user + ":"@ + password
}

/// Whether the host's basic credentials, if it sends any, can be encoded.
pub open spec fn auth_fits(auth: Option<AuthConfig>) -> bool {
    match auth {
        Some(a) => match (a.username, a.password) {
            (Some(u), Some(p)) => base64_fits(encode_utf8(basic_credentials(u@, p@)).len()),
            _ => true,
        },
        None => true,
    }
}

/// The authentication header that a host's requests carry, if any.
pub open spec fn auth_header_spec(auth: Option<AuthConfig>) -> Option<(Seq<char>, Seq<char>)> {
    match auth {
        Some(a) => if a.auth_type@ == "bearer"@ {
            match a.token {
                Some(t) => Some(("Authorization"@, "Bearer "@ + t@)),
                None => None,
            }
        } else if a.auth_type@ == "custom-header"@ {
            match (a.header_name, a.header_value) {
                (Some(n), Some(v)) => Some((n@, v@)),
                _ => None,
            }
        } else if a.auth_type@ == "basic"@ {
            match (a.username, a.password) {
                (Some(u), Some(p)) => Some(
                    (
                        "Authorization"@,
                        "Basic "@ + base64_spec(encode_utf8(basic_credentials(u@, p@))),
                    ),
                ),
                _ => None,
            }
        } else {
            None
        },
        None => None,
    }
}

/// The views of a list of headers.
pub open spec fn headers_view(h: Seq<(String, String)>) -> Seq<(Seq<char>, Seq<char>)> {
    h.map_values(|p: (String, String)| (p.0@, p.1@))
}

/// The authentication header of a host's requests, if any.
pub fn auth_header(auth: &Option<AuthConfig>) -> (r: Option<(String, String)>)
    requires
        auth_fits(*auth),
    ensures
        match r {
            Some(h) => auth_header_spec(*auth) == Some((h.0@, h.1@)),
            None => auth_header_spec(*auth) is None,
        },
{
    match auth {
        Some(a) => {
            if crate::keyed::str_eq(a.auth_type.as_str(), "bearer") {
                match &a.token {
                    Some(t) => {
                        let mut v = to_owned_string("Bearer ");
                        push_str(&mut v, t.as_str());
                        Some((to_owned_string("Authorization"), v))
                    },
                    None => None,
                }
            } else if crate::keyed::str_eq(a.auth_type.as_str(), "custom-header") {
                match (&a.header_name, &a.header_value) {
                    (Some(n), Some(v)) => Some((n.clone(), v.clone())),
                    _ => None,
                }
            } else if crate::keyed::str_eq(a.auth_type.as_str(), "basic") {
                match (&a.username, &a.password) {
                    (Some(u), Some(p)) => {
                        let mut credentials = u.clone();
                        push_str(&mut credentials, ":");
                        push_str(&mut credentials, p.as_str());
                        let encoded = base64_encode(credentials.as_str().as_bytes());
                        let mut v = to_owned_string("Basic ");
                        push_str(&mut v, encoded.as_str());
                        Some((to_owned_string("Authorization"), v))
                    },
                    _ => None,
                }
            } else {
                None
            }
        },
        None => None,
    }
}

/// `s` without its trailing `/` characters (`trim_end_matches('/')`).
pub open spec fn trim_slashes(s: Seq<char>) -> Seq<char>
    decreases s.len(),
{
    if s.len() > 0 && s.last() == '/' {
        trim_slashes(s.drop_last())
    } else {
        s
    }
}

pub fn trim_end_slashes(s: &str) -> (r: String)
    ensures
        r@ == trim_slashes(s@),
{
    let v = crate::text::chars_of(s);
    let mut j = v.len();
    assert(s@.take(j as int) =~= s@);
    while j > 0 && v[j - 1] == '/'
        invariant
            v@ == s@,
            j <= v.len(),
            trim_slashes(s@) == trim_slashes(s@.take(j as int)),
        decreases j,
    {
        assert(s@.take(j as int).drop_last() =~= s@.take(j - 1));
        j = j - 1;
    }
    assert(trim_slashes(s@.take(j as int)) == s@.take(j as int));
    crate::text::string_from_chars(&v, 0, j)
}

/// A SQL request to a host's endpoint: a POST of `body` to `url` with `headers`.
#[derive(Debug, Clone, PartialEq)]
pub struct SqlRequest {
    pub url: String,
    pub headers: Vec<(String, String)>,
    pub body: String,
}

/// The endpoint of a host: its URL without trailing slashes, then the query path.
pub open spec fn endpoint_spec(host_name: Seq<char>) -> Seq<char> {
    trim_slashes(host_name) + QUERY_PATH@
}

/// The headers of a host's requests: the JSON content type, then the authentication header.
pub open spec fn request_headers_spec(auth: Option<AuthConfig>) -> Seq<(Seq<char>, Seq<char>)> {
    seq![("Content-Type"@, "application/json"@)] + match auth_header_spec(auth) {
        Some(h) => seq![h],
        None => seq![],
    }
}

/// The request that runs `sql` on `host`.
pub fn build_sql_request(host: &HostConfig, sql: &str) -> (r: SqlRequest)
    requires
        auth_fits(host.auth),
    ensures
        r.url@ == endpoint_spec(host.name@),
        headers_view(r.headers@) == request_headers_spec(host.auth),
        r.body@ == sql_body_spec(sql@),
{
    let mut url = trim_end_slashes(host.name.as_str());
    push_str(&mut url, QUERY_PATH);
    let mut headers: Vec<(String, String)> = Vec::new();
    headers.push((to_owned_string("Content-Type"), to_owned_string("application/json")));
    let ghost h0 = headers@;
    match auth_header(&host.auth) {
        Some(h) => headers.push(h),
        None => {},
    }
    assert(headers_view(headers@) =~= request_headers_spec(host.auth));
    SqlRequest { url, headers, body: json_string_object("sql", sql) }
}

/// Whether `build_sql_request` may be called for `host`.
pub fn request_fits(host: &HostConfig) -> (r: bool)
    ensures
        r == auth_fits(host.auth),
{
    match &host.auth {
        Some(a) => match (&a.username, &a.password) {
            (Some(u), Some(p)) => {
                let mut credentials = u.clone();
                push_str(&mut credentials, ":");
                push_str(&mut credentials, p.as_str());
                let bytes = credentials.as_str().as_bytes();
                let n = bytes.len();
                n / 3 <= usize::MAX / 4 && (n / 3) * 4 <= usize::MAX - (if n % 3 > 0 {
                    4
                } else {
                    0
                })
            },
            _ => true,
        },
        None => true,
    }
}

// ------------------------------------------------------------------------
// What the answers give
// ------------------------------------------------------------------------

/// The views of a list of strings.
pub open spec fn strings_view(v: Seq<String>) -> Seq<Seq<char>> {
    v.map_values(|s: String| s@)
}

/// The string values of member `key` across `rows`, in order, skipping rows
/// where it is missing or not a string.
pub open spec fn column_strings(rows: Seq<JsonRow>, key: Seq<char>) -> Seq<Seq<char>>
    decreases rows.len(),
{
    if rows.len() == 0 {
        seq![]
    } else {
        let rest = column_strings(rows.drop_last(), key);
        match value_as_str(row_get(rows.last(), key)) {
            Some(s) => rest.push(s@),
            None => rest,
        }
    }
}

/// The error of an answer without a `data` array.
pub open spec fn no_data_error() -> Seq<char> {
    "No 'data' field in response"@
}

/// The string values of member `key` of every row of the answer.
pub fn string_column(resp: &QueryResponse, key: &str) -> (r: Result<Vec<String>, String>)
    ensures
        match resp.data {
            Some(rows) => r matches Ok(v) && strings_view(v@) == column_strings(rows@, key@),
            None => r matches Err(e) && e@ == no_data_error(),
        },
{
    match &resp.data {
        None => Err(to_owned_string("No 'data' field in response")),
        Some(rows) => {
            let mut out: Vec<String> = Vec::new();
            let mut i: usize = 0;
            while i < rows.len()
                invariant
                    i <= rows.len(),
                    strings_view(out@) == column_strings(rows@.take(i as int), key@),
                decreases rows.len() - i,
            {
                let ghost before = out@;
                assert(rows@.take(i + 1).drop_last() =~= rows@.take(i as int));
                assert(rows@.take(i + 1).last() == rows@[i as int]);
                match rows[i].get_str(key) {
                    Some(v) => {
                        out.push(v);
                        assert(strings_view(out@) =~= strings_view(before).push(v@));
                    },
                    None => {},
                }
                i = i + 1;
            }
            assert(rows@.take(rows.len() as int) =~= rows@);
            Ok(out)
        },
    }
}

/// The schema names in an answer to `SCHEMAS_SQL`.
pub fn schema_names(resp: &QueryResponse) -> (r: Result<Vec<String>, String>)
    ensures
        match resp.data {
            Some(rows) => r matches Ok(v) && strings_view(v@) == column_strings(
                rows@,
                "schema_name"@,
            ),
            None => r matches Err(e) && e@ == no_data_error(),
        },
{
    string_column(resp, "schema_name")
}

/// The table names in an answer to a tables query.
pub fn table_names(resp: &QueryResponse) -> (r: Result<Vec<String>, String>)
    ensures
        match resp.data {
            Some(rows) => r matches Ok(v) && strings_view(v@) == column_strings(
                rows@,
                "table_name"@,
            ),
            None => r matches Err(e) && e@ == no_data_error(),
        },
{
    string_column(resp, "table_name")
}

/// The views of a list of columns.
pub open spec fn columns_view(c: Seq<ColumnInfo>) -> Seq<(Seq<char>, Seq<char>)> {
    c.map_values(|x: ColumnInfo| (x.name@, x.data_type@))
}

/// The columns described by the rows of an answer to a columns query: rows
/// whose `column_name` and `data_type` are both strings, in order.
pub open spec fn column_infos(rows: Seq<JsonRow>) -> Seq<(Seq<char>, Seq<char>)>
    decreases rows.len(),
{
    if rows.len() == 0 {
        seq![]
    } else {
        let rest = column_infos(rows.drop_last());
        match (
            value_as_str(row_get(rows.last(), "column_name"@)),
            value_as_str(row_get(rows.last(), "data_type"@)),
        ) {
            (Some(n), Some(t)) => rest.push((n@, t@)),
            _ => rest,
        }
    }
}

/// The columns in an answer to a columns query; none when it has no `data` array.
pub fn columns_from_response(resp: &QueryResponse) -> (r: Vec<ColumnInfo>)
    ensures
        columns_view(r@) == match resp.data {
            Some(rows) => column_infos(rows@),
            None => seq![],
        },
{
    let mut out: Vec<ColumnInfo> = Vec::new();
    match &resp.data {
        None => {
            assert(columns_view(out@) =~= seq![]);
        },
        Some(rows) => {
            let mut i: usize = 0;
            assert(columns_view(out@) =~= column_infos(rows@.take(0)));
            while i < rows.len()
                invariant
                    i <= rows.len(),
                    columns_view(out@) == column_infos(rows@.take(i as int)),
                decreases rows.len() - i,
            {
                let ghost before = out@;
                assert(rows@.take(i + 1).drop_last() =~= rows@.take(i as int));
                assert(rows@.take(i + 1).last() == rows@[i as int]);
                let name = rows[i].get_str("column_name");
                let data_type = rows[i].get_str("data_type");
                match (name, data_type) {
                    (Some(n), Some(t)) => {
                        let ghost entry = (n@, t@);
                        out.push(ColumnInfo { name: n, data_type: t });
                        assert(columns_view(out@) =~= columns_view(before).push(entry));
                    },
                    _ => {},
                }
                i = i + 1;
            }
            assert(rows@.take(rows.len() as int) =~= rows@);
        },
    }
    out
}

/// The rows of an answer; none when it has no `data` array.
pub fn rows_from_response(resp: QueryResponse) -> (r: Vec<JsonRow>)
    ensures
        r@ == match resp.data {
            Some(rows) => rows@,
            None => Seq::<JsonRow>::empty(),
        },
{
    match resp.data {
        Some(rows) => rows,
        None => Vec::new(),
    }
}

/// The row count in an answer to the count query: the integer `cnt` of the
/// first row (cast to `usize`), else `fallback`.
pub open spec fn total_spec(resp: QueryResponse, fallback: usize) -> usize {
    match resp.data {
        Some(rows) => if rows@.len() > 0 {
            match row_get(rows@[0], "cnt"@) {
                Some(JsonValue::Number { as_i64: Some(n), .. }) => n as usize,
                _ => fallback,
            }
        } else {
            fallback
        },
        None => fallback,
    }
}

pub fn total_from_response(resp: &QueryResponse, fallback: usize) -> (r: usize)
    ensures
        r == total_spec(*resp, fallback),
{
    match &resp.data {
        Some(rows) => {
            if rows.len() > 0 {
                match rows[0].get("cnt") {
                    Some(JsonValue::Number { as_i64: Some(n), .. }) => *n as usize,
                    _ => fallback,
                }
            } else {
                fallback
            }
        },
        None => fallback,
    }
}

/// The DDL text in an answer to the DDL query: the string `full_ddl` of the
/// first row, else a fixed failure text.
pub open spec fn ddl_text_spec(resp: QueryResponse) -> Seq<char> {
    let first = match resp.data {
        Some(rows) => if rows@.len() > 0 {
            value_as_str(row_get(rows@[0], "full_ddl"@))
        } else {
            None
        },
        None => None,
    };
    match first {
        Some(s) => s@,
        None => "Failed to generate DDL"@,
    }
}

pub fn ddl_from_response(resp: &QueryResponse) -> (r: String)
    ensures
        r@ == ddl_text_spec(*resp),
{
    match &resp.data {
        Some(rows) => {
            if rows.len() > 0 {
                match rows[0].get_str("full_ddl") {
                    Some(s) => s,
                    None => to_owned_string("Failed to generate DDL"),
                }
            } else {
                to_owned_string("Failed to generate DDL")
            }
        },
        None => to_owned_string("Failed to generate DDL"),
    }
}

// ------------------------------------------------------------------------
// Reading answer bodies
// ------------------------------------------------------------------------

/// The message of the `serde_json` error for a `body` that is not JSON, and
/// `None` for one that is.
pub uninterp spec fn json_error_text(body: Seq<char>) -> Option<Seq<char>>;

/// What `serde_json` reads from `body` as rows: one row for each element of
/// the array member `data_key`, holding its members where it is an object.
/// `None` where `body` is not JSON or has no such array. Parsing is
/// deterministic (object members come in key order), so the result depends on
/// the two texts alone.
pub uninterp spec fn json_rows(body: Seq<char>, data_key: Seq<char>) -> Option<Vec<JsonRow>>;

/// `serde_json::from_str::<Value>(body)`: the error's `Display` text where it
/// fails. The contract names that text and does not spell it out.
#[verifier::external_body]
fn json_parse_error(body: &str) -> (r: Option<String>)
    ensures
        match json_error_text(body@) {
            Some(t) => r matches Some(e) && e@ == t,
            None => r is None,
        },
{
    serde_json::from_str::<Value>(body).err().map(|e| e.to_string())
}

/// `serde_json::from_str::<Value>(body)`, then `Value::as_array` of member
/// `data_key` and `Value::as_object` of each element, converted member by
/// member: each JSON value keeps its kind (the last arm takes the objects),
/// and numbers, arrays and objects also carry their compact text
/// (`to_string`). The contract names the result and does not spell it out.
#[verifier::external_body]
fn json_data_rows(body: &str, data_key: &str) -> (r: Option<Vec<JsonRow>>)
    ensures
        r == json_rows(body@, data_key@),
{
    serde_json::from_str::<Value>(body).ok()?[data_key].as_array().map(|a| a.iter().map(|x| JsonRow {
        fields: x.as_object().map(|o| o.iter().map(|(k, y)| (k.clone(), match y {
            Null => JsonValue::Null,
            Bool(b) => JsonValue::Bool(*b),
            Value::String(s) => JsonValue::Str(s.clone()),
            Number(n) => JsonValue::Number { text: n.to_string(), as_i64: n.as_i64() },
            Array(a) => JsonValue::Array { len: a.len(), text: y.to_string() },
            _ => JsonValue::Object { text: y.to_string() }
        })).collect())
    }).collect())
}

/// The answer that a host's reply body holds: `None` where it is not JSON.
pub open spec fn body_answer(body: Seq<char>) -> Option<QueryResponse> {
    match json_error_text(body) {
        Some(_) => None,
        None => Some(QueryResponse { data: json_rows(body, "data"@) }),
    }
}

/// The error of a reply body that is not JSON.
pub open spec fn parse_error_text(body: Seq<char>) -> Seq<char> {
    match json_error_text(body) {
        Some(t) => "JSON parse error: "@ + t,
        None => seq![],
    }
}

/// Parses a host's reply body.
pub fn parse_answer(body: &str) -> (r: Result<QueryResponse, String>)
    ensures
        match body_answer(body@) {
            Some(a) => r == Ok::<QueryResponse, String>(a),
            None => r matches Err(e) && e@ == parse_error_text(body@),
        },
{
    match json_parse_error(body) {
        Some(e) => {
            let mut msg = to_owned_string("JSON parse error: ");
            push_str(&mut msg, e.as_str());
            Err(msg)
        },
        None => Ok(QueryResponse { data: json_data_rows(body, "data") }),
    }
}

/// The schema names in a reply body to `SCHEMAS_SQL`.
pub fn schema_names_from_body(body: &str) -> (r: Result<Vec<String>, String>)
    ensures
        match body_answer(body@) {
            Some(a) => match a.data {
                Some(rows) => r matches Ok(v) && strings_view(v@) == column_strings(
                    rows@,
                    "schema_name"@,
                ),
                None => r matches Err(e) && e@ == no_data_error(),
            },
            None => r matches Err(e) && e@ == parse_error_text(body@),
        },
{
    let answer = parse_answer(body)?;
    schema_names(&answer)
}

/// The table names in a reply body to a tables query.
pub fn table_names_from_body(body: &str) -> (r: Result<Vec<String>, String>)
    ensures
        match body_answer(body@) {
            Some(a) => match a.data {
                Some(rows) => r matches Ok(v) && strings_view(v@) == column_strings(
                    rows@,
                    "table_name"@,
                ),
                None => r matches Err(e) && e@ == no_data_error(),
            },
            None => r matches Err(e) && e@ == parse_error_text(body@),
        },
{
    let answer = parse_answer(body)?;
    table_names(&answer)
}

/// The rows in a reply body to a data query; none when it has no `data` array.
pub fn rows_from_body(body: &str) -> (r: Result<Vec<JsonRow>, String>)
    ensures
        match body_answer(body@) {
            Some(a) => r matches Ok(v) && v@ == match a.data {
                Some(rows) => rows@,
                None => Seq::<JsonRow>::empty(),
            },
            None => r matches Err(e) && e@ == parse_error_text(body@),
        },
{
    let answer = parse_answer(body)?;
    Ok(rows_from_response(answer))
}

/// The row count in a reply body to a count query, else `fallback`.
pub fn total_from_body(body: &str, fallback: usize) -> (r: Result<usize, String>)
    ensures
        match body_answer(body@) {
            Some(a) => r == Ok::<usize, String>(total_spec(a, fallback)),
            None => r matches Err(e) && e@ == parse_error_text(body@),
        },
{
    let answer = parse_answer(body)?;
    Ok(total_from_response(&answer, fallback))
}

/// The DDL text in a reply body to the DDL query.
pub fn ddl_from_body(body: &str) -> (r: Result<String, String>)
    ensures
        match body_answer(body@) {
            Some(a) => r matches Ok(s) && s@ == ddl_text_spec(a),
            None => r matches Err(e) && e@ == parse_error_text(body@),
        },
{
    let answer = parse_answer(body)?;
    Ok(ddl_from_response(&answer))
}

} // verus!
