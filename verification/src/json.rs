//! What the panels read of the JSON that a SQL API host answers with:
//! `{"data": [row, ...]}`, each row an object from column names to values.
use vstd::prelude::*;
use crate::text::{decimal, push_decimal, push_str, to_owned_string};

verus! {

/// One JSON value of a result row. Numbers, arrays and objects carry their
/// compact JSON text as the JSON library prints it; numbers also carry their
/// value where it fits in an `i64`.
#[derive(Debug, Clone, PartialEq)]
pub enum JsonValue {
    Null,
    Bool(bool),
    Number { text: String, as_i64: Option<i64> },
    Str(String),
    Array { len: usize, text: String },
    Object { text: String },
}

/// One element of a response's `data` array: `fields` holds its members when
/// it is a JSON object, and is `None` for any other JSON value.
#[derive(Debug, Clone, PartialEq)]
pub struct JsonRow {
    pub fields: Option<Vec<(String, JsonValue)>>,
}

/// A response body: `data` holds the rows when the body is an object whose
/// `data` member is an array, and is `None` otherwise.
#[derive(Debug, Clone, PartialEq)]
pub struct QueryResponse {
    pub data: Option<Vec<JsonRow>>,
}

/// The first member of `fields` named `key`.
pub open spec fn fields_lookup(fields: Seq<(String, JsonValue)>, key: Seq<char>) -> Option<JsonValue>
    decreases fields.len(),
{
    if fields.len() == 0 {
        None
    } else if fields[0].0@ == key {
        Some(fields[0].1)
    } else {
        fields_lookup(fields.drop_first(), key)
    }
}

/// `row.get(key)`: the member `key` of an object row, `None` for other rows.
pub open spec fn row_get(row: JsonRow, key: Seq<char>) -> Option<JsonValue> {
    match row.fields {
        Some(f) => fields_lookup(f@, key),
        None => None,
    }
}

/// `value.as_str()`: the text of a JSON string.
pub open spec fn value_as_str(v: Option<JsonValue>) -> Option<String> {
    match v {
        Some(JsonValue::Str(s)) => Some(s),
        _ => None,
    }
}

/// The text of `true` or `false`.
pub open spec fn bool_text(b: bool) -> Seq<char> {
    if b {
        "true"@
    } else {
        "false"@
    }
}

/// The compact JSON text of a value that is neither a string nor null.
pub open spec fn json_text(v: JsonValue) -> Seq<char> {
    match v {
        JsonValue::Null => "null"@,
        JsonValue::Bool(b) => bool_text(b),
        JsonValue::Number { text, .. } => text@,
        JsonValue::Str(s) => s@,
        JsonValue::Array { text, .. } => text@,
        JsonValue::Object { text } => text@,
    }
}

fn lookup_fields<'a>(fields: &'a Vec<(String, JsonValue)>, key: &str) -> (r: Option<&'a JsonValue>)
    ensures
        r matches Some(v) ==> fields_lookup(fields@, key@) == Some(*v),
        r is None ==> fields_lookup(fields@, key@) is None,
{
    let mut i: usize = 0;
    assert(fields@.skip(0) =~= fields@);
    while i < fields.len()
        invariant
            i <= fields.len(),
            fields_lookup(fields@, key@) == fields_lookup(fields@.skip(i as int), key@),
        decreases fields.len() - i,
    {
        let ghost rest = fields@.skip(i as int);
        assert(rest[0] == fields@[i as int]);
        if crate::keyed::str_eq(fields[i].0.as_str(), key) {
            return Some(&fields[i].1);
        }
        assert(rest.drop_first() =~= fields@.skip(i + 1));
        i = i + 1;
    }
    None
}

impl JsonRow {
    /// The member `key` of an object row (`serde_json::Value::get`).
    pub fn get(&self, key: &str) -> (r: Option<&JsonValue>)
        ensures
            r matches Some(v) ==> row_get(*self, key@) == Some(*v),
            r is None ==> row_get(*self, key@) is None,
    {
        match &self.fields {
            Some(f) => lookup_fields(f, key),
            None => None,
        }
    }

    /// The text of the string member `key`, if the row has one.
    pub fn get_str(&self, key: &str) -> (r: Option<String>)
        ensures
            r matches Some(s) ==> value_as_str(row_get(*self, key@)) matches Some(t) && s@ == t@,
            r is None ==> value_as_str(row_get(*self, key@)) is None,
    {
        match self.get(key) {
            Some(JsonValue::Str(s)) => Some(s.clone()),
            _ => None,
        }
    }
}

/// The text that the HTML export shows for a value: `[bytea data]` for a
/// `bytea` column, the text of a string, `NULL` for null, the JSON text otherwise.
pub open spec fn html_cell_text(v: JsonValue, data_type: Seq<char>) -> Seq<char> {
    if data_type == "bytea"@ {
        "[bytea data]"@
    } else {
        match v {
            JsonValue::Str(s) => s@,
            JsonValue::Null => "NULL"@,
            _ => json_text(v),
        }
    }
}

/// The text that the row view shows for a value of a column whose type is
/// `bytea` when `is_bytea` holds.
pub open spec fn display_text(v: JsonValue, is_bytea: bool) -> Seq<char> {
    if v is Null {
        "NULL"@
    } else if is_bytea {
        "[bytea data]"@
    } else {
        match v {
            JsonValue::Str(s) => s@,
            JsonValue::Number { text, .. } => text@,
            JsonValue::Bool(b) => bool_text(b),
            JsonValue::Array { len, .. } => "["@ + decimal(len as nat) + " items]"@,
            _ => "{...}"@,
        }
    }
}

impl JsonValue {
    /// Whether the value is JSON null.
    pub fn is_null(&self) -> (r: bool)
        ensures
            r == (*self is Null),
    {
        match self {
            JsonValue::Null => true,
            _ => false,
        }
    }
}

/// Appends the text of `true` or `false`.
fn push_bool(out: &mut String, b: bool)
    ensures
        final(out)@ == old(out)@ + bool_text(b),
{
    if b {
        push_str(out, "true");
    } else {
        push_str(out, "false");
    }
}

/// The text that the HTML export shows for a value.
pub fn html_cell(v: &JsonValue, data_type: &str) -> (r: String)
    ensures
        r@ == html_cell_text(*v, data_type@),
        data_type@ == "bytea"@ ==> r@ == "[bytea data]"@,
        data_type@ != "bytea"@ ==> match *v {
            JsonValue::Null => r@ == "NULL"@,
            JsonValue::Bool(b) => r@ == if b { "true"@ } else { "false"@ },
            JsonValue::Str(t) => r@ == t@,
            JsonValue::Number { text, .. } => r@ == text@,
            JsonValue::Array { text, .. } => r@ == text@,
            JsonValue::Object { text } => r@ == text@,
        },
{
    if crate::keyed::str_eq(data_type, "bytea") {
        return to_owned_string("[bytea data]");
    }
    let mut r = String::new();
    match v {
        JsonValue::Str(s) => push_str(&mut r, s.as_str()),
        JsonValue::Null => push_str(&mut r, "NULL"),
        JsonValue::Bool(b) => push_bool(&mut r, *b),
        JsonValue::Number { text, .. } => push_str(&mut r, text.as_str()),
        JsonValue::Array { text, .. } => push_str(&mut r, text.as_str()),
        JsonValue::Object { text } => push_str(&mut r, text.as_str()),
    }
    r
}

/// The text that the row view shows for a value.
pub fn display_cell(v: &JsonValue, is_bytea: bool) -> (r: String)
    ensures
        r@ == display_text(*v, is_bytea),
        *v is Null ==> r@ == "NULL"@,
        is_bytea && !(*v is Null) ==> r@ == "[bytea data]"@,
        !is_bytea ==> match *v {
            JsonValue::Null => r@ == "NULL"@,
            JsonValue::Bool(b) => r@ == if b { "true"@ } else { "false"@ },
            JsonValue::Str(t) => r@ == t@,
            JsonValue::Number { text, .. } => r@ == text@,
            JsonValue::Array { len, .. } => r@ == "["@ + decimal(len as nat) + " items]"@,
            JsonValue::Object { .. } => r@ == "{...}"@,
        },
{
    let mut r = String::new();
    match v {
        JsonValue::Null => {
            push_str(&mut r, "NULL");
            return r;
        },
        _ => {},
    }
    if is_bytea {
        push_str(&mut r, "[bytea data]");
        return r;
    }
    match v {
        JsonValue::Str(s) => push_str(&mut r, s.as_str()),
        JsonValue::Number { text, .. } => push_str(&mut r, text.as_str()),
        JsonValue::Bool(b) => push_bool(&mut r, *b),
        JsonValue::Array { len, .. } => {
            push_str(&mut r, "[");
            push_decimal(&mut r, *len);
            push_str(&mut r, " items]");
        },
        _ => push_str(&mut r, "{...}"),
    }
    r
}

/// In a column that is not `bytea`, the export shows a value as its JSON text:
/// a boolean as `true` or `false`, a number, array or object as the compact
/// text that the JSON library printed for it, a string as its own text (without
/// quotes) and null as `NULL`. So two different booleans never show alike.
pub proof fn lemma_html_cell_shows_json_text(v: JsonValue, data_type: Seq<char>)
    requires
        data_type != "bytea"@,
    ensures
        match v {
            JsonValue::Null => html_cell_text(v, data_type) == "NULL"@,
            JsonValue::Bool(b) => html_cell_text(v, data_type) == if b { "true"@ } else { "false"@ },
            JsonValue::Str(t) => html_cell_text(v, data_type) == t@,
            JsonValue::Number { text, .. } => html_cell_text(v, data_type) == text@,
            JsonValue::Array { text, .. } => html_cell_text(v, data_type) == text@,
            JsonValue::Object { text } => html_cell_text(v, data_type) == text@,
        },
        html_cell_text(JsonValue::Bool(true), data_type) != html_cell_text(JsonValue::Bool(false), data_type),
{
    reveal_strlit("true");
    reveal_strlit("false");
    assert("true"@[0] != "false"@[0]);
}

/// In the row view, a value of a column that is not `bytea` shows as: `NULL`
/// for null, `true` or `false` for a boolean, the printed number for a number,
/// the text of a string, `[n items]` for an array of `n` elements and `{...}`
/// for an object. So two different booleans never show alike.
pub proof fn lemma_display_cell_shows_value(v: JsonValue)
    ensures
        match v {
            JsonValue::Null => display_text(v, false) == "NULL"@,
            JsonValue::Bool(b) => display_text(v, false) == if b { "true"@ } else { "false"@ },
            JsonValue::Str(t) => display_text(v, false) == t@,
            JsonValue::Number { text, .. } => display_text(v, false) == text@,
            JsonValue::Array { len, .. } => display_text(v, false) == "["@ + decimal(len as nat) + " items]"@,
            JsonValue::Object { .. } => display_text(v, false) == "{...}"@,
        },
        display_text(JsonValue::Bool(true), false) != display_text(JsonValue::Bool(false), false),
{
    reveal_strlit("true");
    reveal_strlit("false");
    assert("true"@[0] != "false"@[0]);
}

} // verus!
