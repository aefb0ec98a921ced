use dev_panels::html::export_file_name_for;
use dev_panels::docker::DockerState;
use dev_panels::json::{JsonRow, JsonValue, QueryResponse};
use dev_panels::models::HostConfig;
use dev_panels::sql::{
    ddl_from_body, parse_answer, rows_from_body, schema_names_from_body, table_names_from_body,
    total_from_body, ColumnInfo,
};
use dev_panels::table_view::LoadRequest;

fn s(x: &str) -> String {
    x.to_string()
}

fn parse_error(body: &str) -> String {
    format!("JSON parse error: {}", serde_json::from_str::<serde_json::Value>(body).unwrap_err())
}

#[test]
fn answer_values_keep_their_kinds() {
    let body = r#"{"data":[{"n":null,"b":true,"i":-7,"f":1.5,"s":"a\"b","a":[1, 2],"o":{"y":1,"x":"z"}},3]}"#;
    let answer = parse_answer(body).unwrap();
    let rows = answer.data.unwrap();
    assert_eq!(rows.len(), 2);
    assert_eq!(rows[1], JsonRow { fields: None });
    let fields = rows[0].fields.clone().unwrap();
    assert_eq!(fields, vec![
        (s("a"), JsonValue::Array { len: 2, text: s("[1,2]") }),
        (s("b"), JsonValue::Bool(true)),
        (s("f"), JsonValue::Number { text: s("1.5"), as_i64: None }),
        (s("i"), JsonValue::Number { text: s("-7"), as_i64: Some(-7) }),
        (s("n"), JsonValue::Null),
        (s("o"), JsonValue::Object { text: s(r#"{"x":"z","y":1}"#) }),
        (s("s"), JsonValue::Str(s("a\"b"))),
    ]);
}

#[test]
fn answer_without_data_array() {
    assert_eq!(parse_answer(r#"{"rows":[]}"#), Ok(QueryResponse { data: None }));
    assert_eq!(parse_answer(r#"{"data":{"x":1}}"#), Ok(QueryResponse { data: None }));
    assert_eq!(parse_answer("[1]"), Ok(QueryResponse { data: None }));
    assert_eq!(schema_names_from_body(r#"{"rows":[]}"#), Err(s("No 'data' field in response")));
}

#[test]
fn answer_that_is_not_json() {
    assert_eq!(parse_answer("{"), Err(parse_error("{")));
    assert!(parse_error("oops").starts_with("JSON parse error: "));
    assert_eq!(schema_names_from_body("oops"), Err(parse_error("oops")));
    assert_eq!(table_names_from_body(""), Err(parse_error("")));
    assert_eq!(rows_from_body("nope"), Err(parse_error("nope")));
    assert_eq!(total_from_body("{]", 4), Err(parse_error("{]")));
    assert_eq!(ddl_from_body("x"), Err(parse_error("x")));
}

#[test]
fn names_from_bodies() {
    let body = r#"{"data":[{"schema_name":"public"},{"schema_name":null},{"other":"x"},{"schema_name":"sales"}]}"#;
    assert_eq!(schema_names_from_body(body), Ok(vec![s("public"), s("sales")]));
    let tables = r#"{"data":[{"table_name":"users"},{"table_name":"orders"}]}"#;
    assert_eq!(table_names_from_body(tables), Ok(vec![s("users"), s("orders")]));
}

#[test]
fn rows_total_and_ddl_from_bodies() {
    let rows = rows_from_body(r#"{"data":[{"id":1},{"id":2}]}"#).unwrap();
    assert_eq!(rows.len(), 2);
    assert_eq!(rows[1].get_str("id"), None);
    assert_eq!(rows_from_body(r#"{"error":"x"}"#), Ok(vec![]));
    assert_eq!(total_from_body(r#"{"data":[{"cnt":1234}]}"#, 7), Ok(1234));
    assert_eq!(total_from_body(r#"{"data":[{"cnt":"1234"}]}"#, 7), Ok(7));
    assert_eq!(total_from_body(r#"{"data":[]}"#, 7), Ok(7));
    assert_eq!(ddl_from_body(r#"{"data":[{"full_ddl":"CREATE TABLE t();"}]}"#), Ok(s("CREATE TABLE t();")));
    assert_eq!(ddl_from_body(r#"{"data":[]}"#), Ok(s("Failed to generate DDL")));
}

#[test]
fn plan_from_columns_body() {
    let request = LoadRequest {
        host: HostConfig::new(s("http://localhost:8080")),
        schema: s("public"),
        table: s("users"),
        limit: 100,
        offset: 200,
        where_clause: s("id > 1"),
        order_by: s(""),
        sort_column: Some(s("name")),
        sort_direction: s("DESC"),
    };
    let body = r#"{"data":[{"column_name":"id","data_type":"integer"},{"column_name":"name"},{"column_name":"name","data_type":"text"}]}"#;
    let plan = request.plan_from_body(body).unwrap();
    assert_eq!(plan.columns, vec![
        ColumnInfo { name: s("id"), data_type: s("integer") },
        ColumnInfo { name: s("name"), data_type: s("text") },
    ]);
    assert_eq!(
        plan.data_sql,
        "SELECT \"id\", \"name\" FROM public.users WHERE id > 1 ORDER BY \"name\" DESC LIMIT 100 OFFSET 200"
    );
    assert_eq!(plan.count_sql, "SELECT COUNT(*) as cnt FROM public.users WHERE id > 1");
    assert_eq!(request.plan_from_body("[").err(), Some(parse_error("[")));
}

#[test]
fn export_file_name_around_uuid() {
    assert_eq!(
        export_file_name_for("123e4567-e89b-42d3-a456-426614174000"),
        "sql_table_123e4567-e89b-42d3-a456-426614174000.html"
    );
}

#[test]
fn refresh_start_is_stamped_with_given_time() {
    let mut d = DockerState::new();
    d.containers_expanded = false;
    d.begin_refresh_at("09:05:00");
    assert_eq!(d.status, "Обновление... 09:05:00");
    assert!(!d.containers_expanded);
    assert!(d.containers.is_empty());
}
