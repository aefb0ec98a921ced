use base64::Engine;
use dev_panels::html::{export_file_name, generate_interactive_html_table, HtmlThemeColors};
use dev_panels::json::{JsonRow, JsonValue, QueryResponse};
use dev_panels::models::{AuthConfig, HostConfig};
use dev_panels::sql::{
    build_sql_request, columns_from_response, columns_sql, count_sql, data_sql, ddl_from_response,
    ddl_sql, full_table_name, order_part, request_fits, rows_from_response, schema_names,
    select_list, table_names, tables_sql, total_from_response, trim_end_slashes, where_part,
    ColumnInfo, SCHEMAS_SQL,
};

fn s(x: &str) -> String {
    x.to_string()
}

fn row(fields: &[(&str, JsonValue)]) -> JsonRow {
    JsonRow { fields: Some(fields.iter().map(|(k, v)| (s(k), v.clone())).collect()) }
}

fn text(x: &str) -> JsonValue {
    JsonValue::Str(s(x))
}

fn auth(ty: &str) -> AuthConfig {
    AuthConfig { auth_type: s(ty), token: None, header_name: None, header_value: None, username: None, password: None }
}

#[test]
fn schemas_query_text() {
    assert!(SCHEMAS_SQL.contains("SELECT nspname AS schema_name"));
    assert!(SCHEMAS_SQL.contains("nspname <> 'information_schema'"));
}

#[test]
fn tables_query_doubles_quotes() {
    let q = tables_sql("o'neil");
    assert!(q.contains("WHERE table_schema = 'o''neil'\n"));
    assert!(q.starts_with("\n                SELECT table_name\n"));
    assert!(q.ends_with("ORDER BY table_name\n            "));
}

#[test]
fn columns_query_text() {
    assert_eq!(
        columns_sql("pub'lic", "us'ers"),
        "SELECT column_name, data_type FROM information_schema.columns\n             WHERE table_schema = 'pub''lic' AND table_name = 'us''ers' ORDER BY ordinal_position"
    );
}

#[test]
fn ddl_query_names_the_table_everywhere() {
    let q = ddl_sql("public", "users");
    assert_eq!(q.matches("'public'").count(), 7);
    assert_eq!(q.matches("'users'").count(), 7);
    assert!(q.contains("WHERE table_schema = 'public' AND table_name = 'users'"));
    assert!(q.contains("E'\\n(\\n'"));
    assert!(q.contains("as full_ddl"));
}

#[test]
fn table_names_and_select_list() {
    assert_eq!(full_table_name("", "users"), "users");
    assert_eq!(full_table_name("public", "users"), "public.users");
    assert_eq!(select_list(&vec![]), "*");
    let cols = vec![
        ColumnInfo { name: s("id"), data_type: s("integer") },
        ColumnInfo { name: s("name"), data_type: s("text") },
    ];
    assert_eq!(select_list(&cols), "\"id\", \"name\"");
}

#[test]
fn where_and_order_parts() {
    assert_eq!(where_part("  "), "");
    assert_eq!(where_part(" id > 3"), "WHERE  id > 3");
    assert_eq!(order_part(" ", &None, "ASC"), "");
    assert_eq!(order_part(" ", &Some(s("id")), "DESC"), "ORDER BY \"id\" DESC");
    assert_eq!(order_part("name", &Some(s("id")), "ASC"), "ORDER BY name");
}

#[test]
fn data_and_count_queries() {
    assert_eq!(
        data_sql("*", "public.users", "WHERE id > 3", "", 100, 200),
        "SELECT * FROM public.users WHERE id > 3  LIMIT 100 OFFSET 200"
    );
    assert_eq!(count_sql("users", ""), "SELECT COUNT(*) as cnt FROM users ");
}

#[test]
fn request_without_auth() {
    let h = HostConfig { name: s("https://db.local///"), auth: None };
    assert!(request_fits(&h));
    let r = build_sql_request(&h, "SELECT 1");
    assert_eq!(r.url, "https://db.local/api/v1/dev/query-sql");
    assert_eq!(r.headers, vec![(s("Content-Type"), s("application/json"))]);
    assert_eq!(r.body, "{\"sql\":\"SELECT 1\"}");
}

#[test]
fn request_body_is_json() {
    let h = HostConfig::new(s("h"));
    let r = build_sql_request(&h, "a \"quoted\"\nline");
    let v: serde_json::Value = serde_json::from_str(&r.body).unwrap();
    assert_eq!(v["sql"], "a \"quoted\"\nline");
}

#[test]
fn request_with_bearer_and_custom_header() {
    let mut a = auth("bearer");
    a.token = Some(s("tok"));
    let h = HostConfig { name: s("h/"), auth: Some(a) };
    let r = build_sql_request(&h, "x");
    assert_eq!(r.url, "h/api/v1/dev/query-sql");
    assert_eq!(r.headers[1], (s("Authorization"), s("Bearer tok")));

    let mut a = auth("custom-header");
    a.header_name = Some(s("X-API-Key"));
    a.header_value = Some(s("k"));
    let r = build_sql_request(&HostConfig { name: s("h"), auth: Some(a.clone()) }, "x");
    assert_eq!(r.headers[1], (s("X-API-Key"), s("k")));
    a.header_value = None;
    let r = build_sql_request(&HostConfig { name: s("h"), auth: Some(a) }, "x");
    assert_eq!(r.headers.len(), 1);
}

#[test]
fn request_with_basic_auth_is_base64() {
    let mut a = auth("basic");
    a.username = Some(s("user"));
    a.password = Some(s("pass"));
    let h = HostConfig { name: s("h"), auth: Some(a) };
    assert!(request_fits(&h));
    let r = build_sql_request(&h, "x");
    assert_eq!(r.headers[1], (s("Authorization"), s("Basic dXNlcjpwYXNz")));
}

#[test]
fn trim_slashes() {
    assert_eq!(trim_end_slashes("a/b//"), "a/b");
    assert_eq!(trim_end_slashes("///"), "");
}

#[test]
fn names_from_answers() {
    let ok = QueryResponse { data: Some(vec![
        row(&[("schema_name", text("public"))]),
        row(&[("schema_name", JsonValue::Null)]),
        JsonRow { fields: None },
        row(&[("schema_name", text("sales"))]),
    ]) };
    assert_eq!(schema_names(&ok), Ok(vec![s("public"), s("sales")]));
    assert_eq!(schema_names(&QueryResponse { data: None }), Err(s("No 'data' field in response")));
    let t = QueryResponse { data: Some(vec![row(&[("table_name", text("users"))])]) };
    assert_eq!(table_names(&t), Ok(vec![s("users")]));
}

#[test]
fn columns_rows_total_and_ddl_from_answers() {
    let cols = QueryResponse { data: Some(vec![
        row(&[("column_name", text("id")), ("data_type", text("integer"))]),
        row(&[("column_name", text("blob"))]),
        row(&[("column_name", text("img")), ("data_type", text("bytea"))]),
    ]) };
    let c = columns_from_response(&cols);
    assert_eq!(c, vec![
        ColumnInfo { name: s("id"), data_type: s("integer") },
        ColumnInfo { name: s("img"), data_type: s("bytea") },
    ]);
    assert!(columns_from_response(&QueryResponse { data: None }).is_empty());

    let count = QueryResponse { data: Some(vec![row(&[("cnt", JsonValue::Number { text: s("42"), as_i64: Some(42) })])]) };
    assert_eq!(total_from_response(&count, 3), 42);
    assert_eq!(total_from_response(&QueryResponse { data: Some(vec![]) }, 3), 3);
    assert_eq!(total_from_response(&QueryResponse { data: Some(vec![row(&[("cnt", text("42"))])]) }, 3), 3);

    assert_eq!(rows_from_response(QueryResponse { data: None }), vec![]);
    let ddl = QueryResponse { data: Some(vec![row(&[("full_ddl", text("CREATE TABLE t();"))])]) };
    assert_eq!(ddl_from_response(&ddl), "CREATE TABLE t();");
    assert_eq!(ddl_from_response(&QueryResponse { data: Some(vec![]) }), "Failed to generate DDL");
}

fn colors() -> HtmlThemeColors {
    HtmlThemeColors {
        background: s("#101010"),
        editor_background: s("#202020"),
        border: s("#303030"),
        text: s("#eeeeee"),
        accent: s("#4488ff"),
    }
}

#[test]
fn html_export_page() {
    let cols = vec![
        ColumnInfo { name: s("id"), data_type: s("integer") },
        ColumnInfo { name: s("note"), data_type: s("text") },
        ColumnInfo { name: s("img"), data_type: s("bytea") },
    ];
    let rows = vec![
        row(&[
            ("id", JsonValue::Number { text: s("1"), as_i64: Some(1) }),
            ("note", text("<b>hi</b>")),
            ("img", text("\\x00")),
        ]),
        row(&[("id", JsonValue::Null)]),
    ];
    let page = generate_interactive_html_table("public.t<1>", &cols, &rows, &colors());
    assert!(page.starts_with("<!DOCTYPE html>"));
    assert!(page.contains("<title>public.t&lt;1&gt; - SQL Table</title>"));
    assert!(page.contains("<tr><th>#</th><th>id</th><th>note</th><th>img</th></tr>"));
    assert!(page.contains("<td>1</td><td>&lt;b&gt;hi&lt;/b&gt;</td><td>[bytea data]</td>"));
    assert!(page.contains("<td>NULL</td><td></td><td></td>"));
    assert!(page.contains("<tr class=\"data-row\" data-row=\"2\">"));
    assert!(page.contains("<td colspan=\"4\">"));
    assert!(page.contains("<span class=\"detail-label\">note:</span> <span class=\"detail-value\">&lt;b&gt;hi&lt;/b&gt;</span>"));
    assert!(page.contains("background: #101010;"));
    assert!(page.contains("* { box-sizing: border-box; margin: 0; padding: 0; }"));
    assert!(page.ends_with("</html>"));
}

#[test]
fn export_file_names_are_random() {
    let a = export_file_name();
    let b = export_file_name();
    assert!(a.starts_with("sql_table_") && a.ends_with(".html"));
    assert_eq!(a.len(), "sql_table_".len() + 36 + ".html".len());
    assert_ne!(a, b);
}

#[test]
fn basic_header_is_standard_base64_for_any_length() {
    for (u, p) in [("", ""), ("a", ""), ("ab", "c"), ("user", "pass"), ("ünï", "çødé€"), ("x", "a:b:c\n")] {
        let mut a = auth("basic");
        a.username = Some(s(u));
        a.password = Some(s(p));
        let r = build_sql_request(&HostConfig { name: s("h"), auth: Some(a) }, "x");
        let want = format!("Basic {}", base64::engine::general_purpose::STANDARD.encode(format!("{}:{}", u, p)));
        assert_eq!(r.headers[1], (s("Authorization"), want));
    }
}

#[test]
fn request_body_escapes_like_json() {
    let h = HostConfig::new(s("h"));
    for sql in ["SELECT 1", "a\"b\\c", "tab\tnl\nret\rbs\u{8}ff\u{c}", "\u{0}\u{1f}\u{7f}é€😀", "'quoted' / slash"] {
        let r = build_sql_request(&h, sql);
        let mut object = serde_json::Map::new();
        object.insert(s("sql"), serde_json::Value::String(s(sql)));
        assert_eq!(r.body, serde_json::Value::Object(object).to_string());
    }
    assert_eq!(build_sql_request(&h, "\u{1}\n").body, "{\"sql\":\"\\u0001\\n\"}");
}
