//! The exported page and the DDL query, checked against the same texts built
//! directly with `format!` over `serde_json` values.
use dev_panels::html::{generate_interactive_html_table, HtmlThemeColors};
use dev_panels::json::{JsonRow, JsonValue};
use dev_panels::sql::{ddl_sql, tables_sql, ColumnInfo, SCHEMAS_SQL};

fn expected_escape(s: &str) -> String {
    s.replace('&', "&amp;")
        .replace('<', "&lt;")
        .replace('>', "&gt;")
        .replace('"', "&quot;")
        .replace('\'', "&#39;")
}

fn expected_page(table_name: &str, columns: &[ColumnInfo], data: &[serde_json::Value], colors: &HtmlThemeColors) -> String {
    let headers: Vec<String> = columns.iter().map(|c| expected_escape(&c.name)).collect();

    let header_html = format!("<th>#</th>{}", headers.iter().map(|h| format!("<th>{}</th>", h)).collect::<Vec<_>>().join(""));
    let header_row = format!("<tr>{}</tr>", header_html);

    let rows_html: Vec<String> = data.iter().enumerate().map(|(idx, row)| {
        let row_num = idx + 1;
        let cells: Vec<String> = columns.iter().map(|col| {
            let value = row.get(&col.name)
                .map(|v| {
                    if col.data_type == "bytea" {
                        "[bytea data]".to_string()
                    } else {
                        match v {
                            serde_json::Value::String(s) => s.clone(),
                            serde_json::Value::Null => "NULL".to_string(),
                            other => other.to_string(),
                        }
                    }
                })
                .unwrap_or_default();
            format!("<td>{}</td>", expected_escape(&value))
        }).collect();
        format!(r#"<tr class="data-row" data-row="{}">
            <td class="row-num">{}</td>
            {}
        </tr>
        <tr class="detail-row" id="detail-{}">
            <td colspan="{}">
                <div class="detail-content">
                    {}
                </div>
            </td>
        </tr>"#,
            row_num,
            row_num,
            cells.join(""),
            row_num,
            columns.len() + 1,
            columns.iter().map(|col| {
                let value = row.get(&col.name)
                    .map(|v| {
                        if col.data_type == "bytea" {
                            "[bytea data]".to_string()
                        } else {
                            match v {
                                serde_json::Value::String(s) => s.clone(),
                                serde_json::Value::Null => "NULL".to_string(),
                                other => other.to_string(),
                            }
                        }
                    })
                    .unwrap_or_default();
                format!(r#"<div class="detail-item"><span class="detail-label">{}:</span> <span class="detail-value">{}</span></div>"#,
                    expected_escape(&col.name), expected_escape(&value))
            }).collect::<Vec<_>>().join("")
        )
    }).collect();
    let tbody = rows_html.join("");

    format!(r#"<!DOCTYPE html>
<html lang="en">
<head>
    <meta charset="UTF-8">
    <meta name="viewport" content="width=device-width, initial-scale=1.0">
    <title>{table_name} - SQL Table</title>
    <style>
        * {{ box-sizing: border-box; margin: 0; padding: 0; }}
        body {{
            font-family: system-ui, sans-serif;
            background: {background};
            color: {text};
            padding: 20px;
            height: calc(100vh - 40px);
            display: flex;
            flex-direction: column;
        }}
        h1 {{
            color: {accent};
            margin-bottom: 20px;
            font-size: 1.5rem;
            flex-shrink: 0;
        }}
        .table-container {{
            flex: 1;
            overflow: auto;
            border-radius: 8px;
            box-shadow: 0 4px 6px rgba(0, 0, 0, 0.3);
        }}
        ::-webkit-scrollbar {{
            width: 10px;
            height: 10px;
        }}
        ::-webkit-scrollbar-track {{
            background: {border};
            border-radius: 5px;
        }}
        ::-webkit-scrollbar-thumb {{
            background: {accent};
            border-radius: 5px;
        }}
        ::-webkit-scrollbar-thumb:hover {{
            background: {text};
        }}
        ::-webkit-scrollbar-corner {{
            background: {border};
        }}
        table {{
            width: 100%;
            border-collapse: collapse;
            background: {editor_background};
        }}
        th, td {{
            padding: 10px 12px;
            text-align: left;
            border-bottom: 1px solid {border};
        }}
        th {{
            background: {editor_background};
            color: {accent};
            font-weight: 600;
            cursor: pointer;
            user-select: none;
            position: sticky;
            top: 0;
            z-index: 10;
        }}
        th:hover {{
            background: {border};
        }}
        th::after {{
            content: '';
            display: inline-block;
            margin-left: 8px;
            opacity: 0.5;
        }}
        th.asc::after {{
            content: '▲';
        }}
        th.desc::after {{
            content: '▼';
        }}
        tr.data-row:hover {{
            background: {border};
            cursor: pointer;
        }}
        td {{
            max-width: 300px;
            overflow: hidden;
            text-overflow: ellipsis;
            white-space: nowrap;
        }}
        .row-num {{
            color: {accent};
            font-weight: 600;
            width: 50px;
            text-align: center;
            cursor: pointer;
        }}
        .row-num:hover {{
            background: rgba(0,0,0,0.1);
        }}
        tr.detail-row {{
            display: none;
        }}
        tr.detail-row.open {{
            display: table-row;
        }}
        tr.detail-row td {{
            padding: 0;
            background: {background};
            border-bottom: 2px solid {border};
        }}
        .detail-content {{
            padding: 16px 20px;
            display: flex;
            flex-wrap: wrap;
            gap: 12px;
        }}
        .detail-item {{
            min-width: 200px;
            padding: 8px 12px;
            background: {editor_background};
            border-radius: 6px;
            border: 1px solid {border};
        }}
        .detail-label {{
            color: {accent};
            font-weight: 600;
            display: block;
            margin-bottom: 4px;
        }}
        .detail-value {{
            word-break: break-all;
            white-space: pre-wrap;
        }}
        .info {{
            margin-top: 15px;
            color: {accent};
            font-size: 0.9rem;
        }}
    </style>
</head>
<body>
    <h1>📋 {table_name}</h1>
    <div class="table-container">
        <table>
            <thead>
                {header_row}
            </thead>
            <tbody id="table-body">
                {tbody}
            </tbody>
        </table>
    </div>
    <p class="info">💡 Click row number to expand | Click column header to sort</p>

    <script>
        let sortCol = null;
        let sortAsc = true;

        document.querySelectorAll('.row-num').forEach(cell => {{
            cell.addEventListener('click', (e) => {{
                e.stopPropagation();
                const row = cell.closest('tr');
                const rowNum = row.getAttribute('data-row');
                const detailRow = document.getElementById('detail-' + rowNum);
                if (detailRow) {{
                    detailRow.classList.toggle('open');
                }}
            }});
        }});

        document.querySelectorAll('th').forEach((th, i) => {{
            if (i === 0) return;
            th.addEventListener('click', () => {{
                document.querySelectorAll('th').forEach(h => {{ h.classList.remove('asc', 'desc'); }});

                if (sortCol === i) {{
                    sortAsc = !sortAsc;
                }} else {{
                    sortAsc = true;
                    sortCol = i;
                }}

                th.classList.add(sortAsc ? 'asc' : 'desc');

                const tbody = document.getElementById('table-body');
                const pairs = [];

                document.querySelectorAll('.data-row').forEach(dataRow => {{
                    const rowNum = dataRow.getAttribute('data-row');
                    const detailRow = document.getElementById('detail-' + rowNum);
                    pairs.push({{ dataRow, detailRow }});
                }});

                pairs.sort((a, b) => {{
                    const aVal = a.dataRow.cells[i].textContent;
                    const bVal = b.dataRow.cells[i].textContent;
                    const aNum = parseFloat(aVal);
                    const bNum = parseFloat(bVal);

                    let result;
                    if (!isNaN(aNum) && !isNaN(bNum)) {{
                        result = sortAsc ? aNum - bNum : bNum - aNum;
                    }} else {{
                        result = sortAsc ? aVal.localeCompare(bVal) : bVal.localeCompare(aVal);
                    }}
                    return result;
                }});

                pairs.forEach((pair, newIdx) => {{
                    const newRowNum = newIdx + 1;
                    const oldRowNum = pair.dataRow.getAttribute('data-row');

                    if (oldRowNum !== String(newRowNum)) {{
                        pair.dataRow.setAttribute('data-row', newRowNum);
                        pair.dataRow.querySelector('.row-num').textContent = newRowNum;

                        pair.detailRow.id = 'detail-' + newRowNum;
                    }}

                    tbody.appendChild(pair.dataRow);
                    if (pair.detailRow) {{
                        tbody.appendChild(pair.detailRow);
                    }}
                }});
            }});
        }});
    </script>
</body>
</html>"#,
        table_name = expected_escape(table_name),
        header_row = header_row,
        tbody = tbody,
        background = colors.background,
        editor_background = colors.editor_background,
        border = colors.border,
        text = colors.text,
        accent = colors.accent
    )
}


fn expected_ddl_sql(schema: &str, table: &str) -> String {
    let sql = format!(
            r#"
WITH cols AS (
    SELECT
        column_name,
        data_type,
        character_maximum_length,
        is_nullable,
        column_default,
        ordinal_position
    FROM information_schema.columns
    WHERE table_schema = '{}' AND table_name = '{}'
    ORDER BY ordinal_position
),
pk AS (
    SELECT string_agg(quote_ident(column_name), ', ') as pk_columns
    FROM information_schema.key_column_usage kcu
    JOIN information_schema.table_constraints tc
        ON kcu.constraint_name = tc.constraint_name
    WHERE tc.table_schema = '{}'
      AND tc.table_name = '{}'
      AND tc.constraint_type = 'PRIMARY KEY'
),
fk AS (
    SELECT
        tc.constraint_name,
        string_agg(DISTINCT quote_ident(kcu.column_name), ', ') as fk_columns,
        ccu.table_schema as ref_schema,
        ccu.table_name as ref_table,
        string_agg(DISTINCT quote_ident(ccu.column_name), ', ') as ref_columns,
        rc.update_rule,
        rc.delete_rule
    FROM information_schema.table_constraints tc
    JOIN information_schema.key_column_usage kcu
        ON tc.constraint_name = kcu.constraint_name
    JOIN information_schema.constraint_column_usage ccu
        ON tc.constraint_name = ccu.constraint_name
    JOIN information_schema.referential_constraints rc
        ON tc.constraint_name = rc.constraint_name
    WHERE tc.table_schema = '{}'
      AND tc.table_name = '{}'
      AND tc.constraint_type = 'FOREIGN KEY'
    GROUP BY tc.constraint_name, ccu.table_schema, ccu.table_name, rc.update_rule, rc.delete_rule
),
indexes AS (
    SELECT string_agg(indexdef || ';', E'\n') as index_statements
    FROM pg_indexes
    WHERE schemaname = '{}' AND tablename = '{}'
)
SELECT
    'CREATE TABLE ' || quote_ident('{}') || '.' || quote_ident('{}') || E'\n(\n' ||
    string_agg(
        '    ' || quote_ident(column_name) || ' ' ||
        CASE
            WHEN data_type = 'character varying' THEN 'varchar(' || COALESCE(character_maximum_length::text, '255') || ')'
            WHEN data_type = 'character' THEN 'char(' || character_maximum_length::text || ')'
            ELSE data_type
        END ||
        CASE WHEN is_nullable = 'NO' THEN ' NOT NULL' ELSE '' END ||
        COALESCE(' DEFAULT ' || column_default, ''),
        E',\n'
        ORDER BY ordinal_position
    ) || E'\n);' ||
    COALESCE(E'\n\n-- Primary Key:\nALTER TABLE ' || quote_ident('{}') || '.' || quote_ident('{}') ||
             ' ADD PRIMARY KEY (' || pk_columns || ');', '') ||
    COALESCE(
        (SELECT string_agg(
            E'\n-- Foreign Key:\nALTER TABLE ' || quote_ident('{}') || '.' || quote_ident('{}') ||
            ' ADD CONSTRAINT ' || quote_ident(constraint_name) ||
            ' FOREIGN KEY (' || fk_columns || ') REFERENCES ' ||
            quote_ident(ref_schema) || '.' || quote_ident(ref_table) ||
            ' (' || ref_columns || ')' ||
            CASE WHEN delete_rule != 'NO ACTION' THEN ' ON DELETE ' || delete_rule ELSE '' END ||
            CASE WHEN update_rule != 'NO ACTION' THEN ' ON UPDATE ' || update_rule ELSE '' END || ';',
            ''
        ) FROM fk),
        ''
    ) ||
    COALESCE(E'\n\n-- Indexes:\n' || index_statements, '') as full_ddl
FROM cols
LEFT JOIN pk ON true
LEFT JOIN indexes ON true
GROUP BY pk_columns, index_statements;
            "#,
            schema, table,          // cols
            schema, table,          // pk
            schema, table,          // fk
            schema, table,          // indexes
            schema, table,          // CREATE TABLE
            schema, table,          // PK
            schema, table           // FK
        );
    sql
}

fn value(v: &serde_json::Value) -> JsonValue {
        match v {
            serde_json::Value::Null => JsonValue::Null,
            serde_json::Value::Bool(b) => JsonValue::Bool(*b),
            serde_json::Value::Number(n) => JsonValue::Number { text: n.to_string(), as_i64: n.as_i64() },
            serde_json::Value::String(s) => JsonValue::Str(s.clone()),
            serde_json::Value::Array(a) => JsonValue::Array { len: a.len(), text: v.to_string() },
            serde_json::Value::Object(_) => JsonValue::Object { text: v.to_string() },
        }
}

fn to_row(v: &serde_json::Value) -> JsonRow {
    JsonRow { fields: v.as_object().map(|o| o.iter().map(|(k, x)| (k.clone(), value(x))).collect()) }
}

#[test]
fn page_matches_direct_formatting() {
    let columns = vec![
        ColumnInfo { name: "id".to_string(), data_type: "integer".to_string() },
        ColumnInfo { name: "note <x>".to_string(), data_type: "text".to_string() },
        ColumnInfo { name: "img".to_string(), data_type: "bytea".to_string() },
        ColumnInfo { name: "tags".to_string(), data_type: "jsonb".to_string() },
        ColumnInfo { name: "ok".to_string(), data_type: "boolean".to_string() },
    ];
    let data: Vec<serde_json::Value> = vec![
        serde_json::from_str(r#"{"id": 1, "note <x>": "Tom & 'Jerry'", "img": "\\x00", "tags": [1, "a"], "ok": true}"#).unwrap(),
        serde_json::from_str(r#"{"id": 2.5, "note <x>": null, "tags": {"k": "v"}}"#).unwrap(),
        serde_json::from_str(r#"[1, 2]"#).unwrap(),
        serde_json::from_str(r#"{}"#).unwrap(),
    ];
    let colors = HtmlThemeColors {
        background: "#1e1e1e".to_string(),
        editor_background: "#252526".to_string(),
        border: "#3c3c3c".to_string(),
        text: "#d4d4d4".to_string(),
        accent: "#569cd6".to_string(),
    };
    let rows: Vec<_> = data.iter().map(to_row).collect();
    let got = generate_interactive_html_table("public.\"t\" & <u>", &columns, &rows, &colors);
    let want = expected_page("public.\"t\" & <u>", &columns, &data, &colors);
    assert_eq!(got, want);
    let empty = generate_interactive_html_table("t", &vec![], &vec![], &colors);
    assert_eq!(empty, expected_page("t", &[], &[], &colors));
}

#[test]
fn ddl_query_matches_direct_formatting() {
    for (s, t) in [("public", "users"), ("my schema", "o'neil"), ("", "")] {
        assert_eq!(ddl_sql(s, t), expected_ddl_sql(s, t));
    }
}

fn expected_tables_sql(schema: &str) -> String {
    let sql = format!(
            r#"
                SELECT table_name
                FROM information_schema.tables
                WHERE table_schema = '{}'
                ORDER BY table_name
            "#,
            schema.replace("'", "''") // простая защита
        );
    sql
}

#[test]
fn tables_query_matches_direct_formatting() {
    for s in ["public", "o'neil", "''", ""] {
        assert_eq!(tables_sql(s), expected_tables_sql(s));
    }
    assert_eq!(SCHEMAS_SQL, r#"
            SELECT nspname AS schema_name
            FROM pg_catalog.pg_namespace
            WHERE nspname !~ '^pg_'
            AND nspname <> 'information_schema'
            ORDER BY nspname
        "#);
}
