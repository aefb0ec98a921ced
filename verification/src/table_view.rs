//! The state of a table's data tab (a page of rows under a filter and an
//! ordering, with expandable rows) and of a DDL tab.
use vstd::prelude::*;
use std::collections::HashSet;
use crate::json::{JsonRow, JsonValue, QueryResponse, display_cell, display_text, row_get};
use crate::keyed::str_eq;
use crate::models::HostConfig;
use crate::sql::{
    ColumnInfo, columns_from_response, columns_sql, column_infos, columns_view,
    count_sql, count_sql_spec, data_sql, data_sql_spec, full_table_name, full_table_name_spec,
    opt_view, order_part, order_part_spec, select_list, select_list_spec, where_part,
    where_part_spec, body_answer, parse_answer, parse_error_text,
};
use crate::text::{
    decimal, parse_usize, parse_usize_spec, push_decimal, push_decimal_wide, push_str,
    to_owned_string, trim, trim_spec,
};

verus! {

broadcast use vstd::std_specs::hash::group_hash_axioms;

/// The state of a table's data tab.
pub struct TableViewState {
    pub host: HostConfig,
    pub schema: String,
    pub table: String,
    pub full_table_name: String,
    pub columns: Vec<ColumnInfo>,
    pub data: Vec<JsonRow>,
    pub total_rows: usize,
    pub limit: usize,
    pub offset: usize,
    pub where_clause: String,
    pub order_by: String,
    pub sort_column: Option<String>,
    pub sort_direction: String,
    pub loading: bool,
    pub status: String,
    /// Indices (on the page) of the rows shown with all their fields.
    pub expanded_rows: HashSet<usize>,
}

/// What a load of a page asks for.
#[derive(Debug, Clone, PartialEq)]
pub struct LoadRequest {
    pub host: HostConfig,
    pub schema: String,
    pub table: String,
    pub limit: usize,
    pub offset: usize,
    pub where_clause: String,
    pub order_by: String,
    pub sort_column: Option<String>,
    pub sort_direction: String,
}

/// The queries of a load once the table's columns are known.
#[derive(Debug, Clone, PartialEq)]
pub struct DataQueryPlan {
    pub columns: Vec<ColumnInfo>,
    pub data_sql: String,
    pub count_sql: String,
}

/// A page of rows as a load delivers it: the columns, the rows and the number of rows in all.
pub struct LoadedPage {
    pub columns: Vec<ColumnInfo>,
    pub rows: Vec<JsonRow>,
    pub total: usize,
}

/// The offset of the next page.
pub open spec fn next_offset(offset: nat, limit: nat) -> nat {
    offset + limit
}

/// The offset of the previous page; the first page has none before it.
pub open spec fn prev_offset(offset: nat, limit: nat) -> nat {
    if offset >= limit {
        (offset - limit) as nat
    } else {
        offset
    }
}

/// Going to the next page and back returns to the same offset.
pub proof fn lemma_next_then_prev(offset: nat, limit: nat)
    ensures
        prev_offset(next_offset(offset, limit), limit) == offset,
{
}

/// Whether `r` asks for what `s` shows.
pub open spec fn requests_state(r: LoadRequest, s: TableViewState) -> bool {
    &&& r.host == s.host
    &&& r.schema@ == s.schema@
    &&& r.table@ == s.table@
    &&& r.limit == s.limit
    &&& r.offset == s.offset
    &&& r.where_clause@ == s.where_clause@
    &&& r.order_by@ == s.order_by@
    &&& opt_view(r.sort_column) == opt_view(s.sort_column)
    &&& r.sort_direction@ == s.sort_direction@
}

/// The query settings (host, table, page, filter, ordering) are the same in `a` and `b`.
pub open spec fn same_query(a: TableViewState, b: TableViewState) -> bool {
    &&& a.host == b.host
    &&& a.schema == b.schema
    &&& a.table == b.table
    &&& a.full_table_name == b.full_table_name
    &&& a.limit == b.limit
    &&& a.offset == b.offset
    &&& a.where_clause == b.where_clause
    &&& a.order_by == b.order_by
    &&& a.sort_column == b.sort_column
    &&& a.sort_direction == b.sort_direction
}

/// The loaded page (columns, rows, count) is the same in `a` and `b`.
pub open spec fn same_page(a: TableViewState, b: TableViewState) -> bool {
    &&& a.columns == b.columns
    &&& a.data == b.data
    &&& a.total_rows == b.total_rows
}

/// Whether the first column named `name` has type `bytea`.
pub open spec fn column_is_bytea(cols: Seq<ColumnInfo>, name: Seq<char>) -> bool
    decreases cols.len(),
{
    if cols.len() == 0 {
        false
    } else if cols[0].name@ == name {
        cols[0].data_type@ == "bytea"@
    } else {
        column_is_bytea(cols.drop_first(), name)
    }
}

/// The value of a row in a column as the row view shows it: null when the row lacks it.
pub open spec fn row_value(row: JsonRow, name: Seq<char>) -> JsonValue {
    match row_get(row, name) {
        Some(v) => v,
        None => JsonValue::Null,
    }
}

/// The page label: `Rows {first}-{last} out of {total}`, where the last row
/// is capped by the total.
pub open spec fn rows_label_spec(offset: nat, limit: nat, total: nat) -> Seq<char> {
    let last = if offset + limit <= total {
        offset + limit
    } else {
        total
    };
    "Rows "@ + decimal(offset + 1) + "-"@ + decimal(last) + " out of "@ + decimal(total)
}

/// The status after a page of `n` rows out of `total` loaded.
pub open spec fn loaded_status(n: nat, total: nat) -> Seq<char> {
    "✅ Loaded "@ + decimal(n) + " rows out of "@ + decimal(total)
}

/// The data query of a load, once the columns are known.
pub open spec fn data_sql_for(r: LoadRequest, cols: Seq<ColumnInfo>) -> Seq<char> {
    let full = full_table_name_spec(r.schema@, r.table@);
    let w = where_part_spec(r.where_clause@);
    data_sql_spec(
        select_list_spec(cols),
        full,
        w,
        order_part_spec(r.order_by@, opt_view(r.sort_column), r.sort_direction@),
        r.limit as nat,
        r.offset as nat,
    )
}

/// The count query of a load.
pub open spec fn count_sql_for(r: LoadRequest) -> Seq<char> {
    count_sql_spec(full_table_name_spec(r.schema@, r.table@), where_part_spec(r.where_clause@))
}

impl LoadRequest {
    /// The query for the columns of the requested table.
    pub fn columns_query(&self) -> (r: String)
        ensures
            r@ == crate::sql::columns_sql_spec(self.schema@, self.table@),
    {
        columns_sql(self.schema.as_str(), self.table.as_str())
    }

    /// The data and count queries, given the answer to the columns query.
    pub fn plan(&self, columns_answer: &QueryResponse) -> (r: DataQueryPlan)
        ensures
            columns_view(r.columns@) == match columns_answer.data {
                Some(rows) => column_infos(rows@),
                None => seq![],
            },
            r.data_sql@ == data_sql_for(*self, r.columns@),
            r.count_sql@ == count_sql_for(*self),
    {
        let columns = columns_from_response(columns_answer);
        let select = select_list(&columns);
        let full = full_table_name(self.schema.as_str(), self.table.as_str());
        let w = where_part(self.where_clause.as_str());
        let o = order_part(self.order_by.as_str(), &self.sort_column, self.sort_direction.as_str());
        let data = data_sql(
            select.as_str(),
            full.as_str(),
            w.as_str(),
            o.as_str(),
            self.limit,
            self.offset,
        );
        let count = count_sql(full.as_str(), w.as_str());
        DataQueryPlan { columns, data_sql: data, count_sql: count }
    }

    /// The data and count queries, given the reply body to the columns query.
    pub fn plan_from_body(&self, body: &str) -> (r: Result<DataQueryPlan, String>)
        ensures
            match body_answer(body@) {
                Some(a) => r matches Ok(p) && {
                    &&& columns_view(p.columns@) == match a.data {
                        Some(rows) => column_infos(rows@),
                        None => seq![],
                    }
                    &&& p.data_sql@ == data_sql_for(*self, p.columns@)
                    &&& p.count_sql@ == count_sql_for(*self)
                },
                None => r matches Err(e) && e@ == parse_error_text(body@),
            },
    {
        let answer = parse_answer(body)?;
        Ok(self.plan(&answer))
    }
}

fn copy_opt(s: &Option<String>) -> (r: Option<String>)
    ensures
        r == *s,
{
    crate::models::copy_opt_string(s)
}

impl TableViewState {
    /// The tab for `schema.table` on `host`: first page of 100 rows, no filter,
    /// no ordering, loading.
    pub fn new(host: HostConfig, schema: String, table: String) -> (r: TableViewState)
        ensures
            r.host == host,
            r.schema == schema,
            r.table == table,
            r.full_table_name@ == full_table_name_spec(schema@, table@),
            r.columns@.len() == 0,
            r.data@.len() == 0,
            r.total_rows == 0,
            r.limit == 100,
            r.offset == 0,
            r.where_clause@.len() == 0,
            r.order_by@.len() == 0,
            r.sort_column is None,
            r.sort_direction@ == "ASC"@,
            r.loading,
            r.status@ == "Loading..."@,
            r.expanded_rows@ == Set::<usize>::empty(),
    {
        let full = full_table_name(schema.as_str(), table.as_str());
        TableViewState {
            host,
            schema,
            table,
            full_table_name: full,
            columns: Vec::new(),
            data: Vec::new(),
            total_rows: 0,
            limit: 100,
            offset: 0,
            where_clause: String::new(),
            order_by: String::new(),
            sort_column: None,
            sort_direction: to_owned_string("ASC"),
            loading: true,
            status: to_owned_string("Loading..."),
            expanded_rows: HashSet::new(),
        }
    }

    /// Shows or hides all fields of the row at `index` on the page.
    pub fn toggle_row(&mut self, index: usize)
        ensures
            final(self).expanded_rows@ == crate::explorer::toggle_set(
                old(self).expanded_rows@,
                index,
            ),
            same_query(*final(self), *old(self)),
            same_page(*final(self), *old(self)),
            final(self).status == old(self).status,
            final(self).loading == old(self).loading,
    {
        if self.expanded_rows.contains(&index) {
            self.expanded_rows.remove(&index);
        } else {
            self.expanded_rows.insert(index);
        }
    }

    /// Starts loading the current page: marks the tab as loading and returns what to ask for.
    pub fn begin_load(&mut self) -> (r: LoadRequest)
        ensures
            final(self).loading,
            final(self).status@ == "⏳ Loading data..."@,
            requests_state(r, *final(self)),
            same_query(*final(self), *old(self)),
            same_page(*final(self), *old(self)),
            final(self).expanded_rows@ == old(self).expanded_rows@,
    {
        self.loading = true;
        self.status = to_owned_string("⏳ Loading data...");
        LoadRequest {
            host: self.host.copy(),
            schema: self.schema.clone(),
            table: self.table.clone(),
            limit: self.limit,
            offset: self.offset,
            where_clause: self.where_clause.clone(),
            order_by: self.order_by.clone(),
            sort_column: copy_opt(&self.sort_column),
            sort_direction: self.sort_direction.clone(),
        }
    }

    /// Records the end of a load: the page and a count in the status on
    /// success, the error in the status otherwise; the tab is no longer loading.
    pub fn finish_load(&mut self, result: Result<LoadedPage, String>)
        ensures
            !final(self).loading,
            match result {
                Ok(p) => final(self).columns == p.columns && final(self).data == p.rows
                    && final(self).total_rows == p.total && final(self).status@ == loaded_status(
                    p.rows@.len(),
                    p.total as nat,
                ),
                Err(e) => same_page(*final(self), *old(self)) && final(self).status@ == "❌ "@
                    + e@,
            },
            same_query(*final(self), *old(self)),
            final(self).expanded_rows@ == old(self).expanded_rows@,
    {
        match result {
            Ok(p) => {
                self.columns = p.columns;
                self.data = p.rows;
                self.total_rows = p.total;
                let mut s = to_owned_string("✅ Loaded ");
                push_decimal(&mut s, self.data.len());
                push_str(&mut s, " rows out of ");
                push_decimal(&mut s, self.total_rows);
                self.status = s;
            },
            Err(e) => {
                let mut s = to_owned_string("❌ ");
                push_str(&mut s, e.as_str());
                self.status = s;
            },
        }
        self.loading = false;
    }

    /// Applies the filter inputs and reloads from the first page: a limit that
    /// parses as a number becomes the page size (at least 1); the filter and
    /// the ordering are taken trimmed. An input that is `None` changes nothing.
    pub fn apply_filters(
        &mut self,
        limit_text: &Option<String>,
        where_text: &Option<String>,
        order_text: &Option<String>,
    ) -> (r: LoadRequest)
        ensures
            final(self).limit == match limit_text {
                Some(t) => match parse_usize_spec(t@) {
                    Some(l) => if l >= 1 {
                        l
                    } else {
                        1
                    },
                    None => old(self).limit,
                },
                None => old(self).limit,
            },
            final(self).where_clause@ == match where_text {
                Some(t) => trim_spec(t@),
                None => old(self).where_clause@,
            },
            final(self).order_by@ == match order_text {
                Some(t) => trim_spec(t@),
                None => old(self).order_by@,
            },
            final(self).offset == 0,
            final(self).loading,
            final(self).status@ == "⏳ Loading data..."@,
            requests_state(r, *final(self)),
            final(self).host == old(self).host,
            final(self).schema == old(self).schema,
            final(self).table == old(self).table,
            final(self).sort_column == old(self).sort_column,
            final(self).sort_direction == old(self).sort_direction,
            same_page(*final(self), *old(self)),
    {
        match limit_text {
            Some(t) => match parse_usize(t.as_str()) {
                Some(l) => {
                    self.limit = if l >= 1 {
                        l
                    } else {
                        1
                    };
                },
                None => {},
            },
            None => {},
        }
        match where_text {
            Some(t) => {
                self.where_clause = trim(t.as_str());
            },
            None => {},
        }
        match order_text {
            Some(t) => {
                self.order_by = trim(t.as_str());
            },
            None => {},
        }
        self.offset = 0;
        self.begin_load()
    }

    /// Reloads the current page.
    pub fn refresh(&mut self) -> (r: LoadRequest)
        ensures
            final(self).loading,
            final(self).status@ == "⏳ Loading data..."@,
            requests_state(r, *final(self)),
            same_query(*final(self), *old(self)),
            same_page(*final(self), *old(self)),
    {
        self.begin_load()
    }

    /// Whether the previous-page button is disabled (on the first page).
    pub fn prev_disabled(&self) -> (r: bool)
        ensures
            r == (self.offset == 0),
    {
        self.offset == 0
    }

    /// Whether the next-page button is disabled (the page reaches the last row).
    pub fn next_disabled(&self) -> (r: bool)
        ensures
            r == (self.offset + self.limit >= self.total_rows),
    {
        self.offset >= self.total_rows || self.limit >= self.total_rows - self.offset
    }

    /// Goes one page back and reloads; on the first rows (offset below the
    /// page size) nothing changes and nothing loads.
    pub fn prev_page(&mut self) -> (r: Option<LoadRequest>)
        ensures
            final(self).offset == prev_offset(old(self).offset as nat, old(self).limit as nat),
            r is Some == (old(self).offset >= old(self).limit),
            r is Some ==> final(self).loading && final(self).status@ == "⏳ Loading data..."@,
            r matches Some(q) ==> requests_state(q, *final(self)),
            r is None ==> final(self).status == old(self).status && final(self).loading == old(
                self,
            ).loading,
            final(self).limit == old(self).limit,
            same_page(*final(self), *old(self)),
    {
        if self.offset >= self.limit {
            self.offset = self.offset - self.limit;
            Some(self.begin_load())
        } else {
            None
        }
    }

    /// Goes one page forward and reloads.
    pub fn next_page(&mut self) -> (r: LoadRequest)
        requires
            old(self).offset + old(self).limit <= usize::MAX,
        ensures
            final(self).offset == next_offset(old(self).offset as nat, old(self).limit as nat),
            final(self).loading,
            final(self).status@ == "⏳ Loading data..."@,
            requests_state(r, *final(self)),
            final(self).limit == old(self).limit,
            same_page(*final(self), *old(self)),
    {
        self.offset = self.offset + self.limit;
        self.begin_load()
    }

    /// The label under the rows: `Rows {first}-{last} out of {total}`.
    pub fn rows_label(&self) -> (r: String)
        ensures
            r@ == rows_label_spec(self.offset as nat, self.limit as nat, self.total_rows as nat),
    {
        let last = if self.offset >= self.total_rows || self.limit >= self.total_rows - self.offset {
            self.total_rows
        } else {
            self.offset + self.limit
        };
        let mut r = to_owned_string("Rows ");
        push_decimal_wide(&mut r, self.offset as u128 + 1);
        push_str(&mut r, "-");
        push_decimal(&mut r, last);
        push_str(&mut r, " out of ");
        push_decimal(&mut r, self.total_rows);
        r
    }

    /// The title of a row: `Row {n}`, numbered across pages from 1.
    pub fn row_label(&self, index: usize) -> (r: String)
        ensures
            r@ == "Row "@ + decimal((self.offset + index + 1) as nat),
    {
        let mut r = to_owned_string("Row ");
        push_decimal_wide(&mut r, self.offset as u128 + index as u128 + 1);
        r
    }

    /// The field count shown beside each row: `({n} fields)`.
    pub fn fields_label(&self) -> (r: String)
        ensures
            r@ == "("@ + decimal(self.columns@.len()) + " fields)"@,
    {
        let mut r = to_owned_string("(");
        push_decimal(&mut r, self.columns.len());
        push_str(&mut r, " fields)");
        r
    }

    /// Whether the first column named `name` has type `bytea`.
    pub fn is_bytea_column(&self, name: &str) -> (r: bool)
        ensures
            r == column_is_bytea(self.columns@, name@),
    {
        let mut i: usize = 0;
        assert(self.columns@.skip(0) =~= self.columns@);
        while i < self.columns.len()
            invariant
                i <= self.columns.len(),
                column_is_bytea(self.columns@, name@) == column_is_bytea(
                    self.columns@.skip(i as int),
                    name@,
                ),
            decreases self.columns.len() - i,
        {
            assert(self.columns@.skip(i as int)[0] == self.columns@[i as int]);
            if str_eq(self.columns[i].name.as_str(), name) {
                return str_eq(self.columns[i].data_type.as_str(), "bytea");
            }
            assert(self.columns@.skip(i as int).drop_first() =~= self.columns@.skip(i + 1));
            i = i + 1;
        }
        false
    }

    /// The text the row view shows for `value` in the column named `column_name`.
    pub fn format_cell_value(&self, column_name: &str, value: &JsonValue) -> (r: String)
        ensures
            r@ == display_text(*value, column_is_bytea(self.columns@, column_name@)),
    {
        if value.is_null() {
            return display_cell(value, false);
        }
        let b = self.is_bytea_column(column_name);
        display_cell(value, b)
    }

    /// The text the row view shows for `row` in column `col`.
    pub fn row_field_text(&self, row: &JsonRow, col: &ColumnInfo) -> (r: String)
        ensures
            r@ == display_text(row_value(*row, col.name@), column_is_bytea(self.columns@, col.name@)),
    {
        match row.get(col.name.as_str()) {
            Some(v) => self.format_cell_value(col.name.as_str(), v),
            None => self.format_cell_value(col.name.as_str(), &JsonValue::Null),
        }
    }

    /// Starts an export of the page to a browser when there are rows; returns
    /// whether it did. Without rows the status says there is nothing to export.
    pub fn show_in_browser(&mut self) -> (started: bool)
        ensures
            started == (old(self).data@.len() > 0),
            started ==> final(self).status@ == "🌐 Opening in the browser..."@,
            !started ==> final(self).status@ == "⚠️ No data available for export"@,
            same_query(*final(self), *old(self)),
            same_page(*final(self), *old(self)),
            final(self).loading == old(self).loading,
    {
        if self.data.len() == 0 {
            self.status = to_owned_string("⚠️ No data available for export");
            false
        } else {
            self.status = to_owned_string("🌐 Opening in the browser...");
            true
        }
    }
}

/// The state of a DDL tab: its title and the text it shows.
pub struct DdlDocument {
    pub title: String,
    pub ddl_text: String,
}

impl DdlDocument {
    pub fn new(title: String, ddl_text: String) -> (r: DdlDocument)
        ensures
            r.title == title,
            r.ddl_text == ddl_text,
    {
        DdlDocument { title, ddl_text }
    }

    /// Replaces the text the tab shows.
    pub fn update_ddl(&mut self, ddl_text: String)
        ensures
            final(self).ddl_text == ddl_text,
            final(self).title == old(self).title,
    {
        self.ddl_text = ddl_text;
    }
}

} // verus!
