//! Databases: the commands that reach them, and what their output means.

use vstd::prelude::*;

use crate::collections;
use crate::domain::database;
use crate::domain::database::{
    is_dangerous_sql, validate_sql, ColumnInfo, DatabaseType, DbConnectionConfig,
    DbExecuteRequest, DbExecuteResponse, DbExportRequest, DbExportResponse, DbQueryRequest,
    DbQueryResponse, ExportFormat, GetSchemaRequest, GetSchemaResponse, ListDatabasesRequest,
    ListDatabasesResponse, ListTablesRequest, ListTablesResponse, SqlValidation, TableInfo,
};
use crate::error::{ApiError, ApiResult};
use crate::infra::command::{CommandLine, CommandOutput};
use crate::text::case;
use crate::text::case::to_uppercase;
use crate::text::chars;
use crate::text::chars::{concat2, concat3, concat4, concat5, str_eq};
use crate::text::edit;
use crate::text::edit::words;
use crate::text::number;
use crate::text::number::{decimal, parse_i64};
use crate::text::search;
use crate::text::search::{contains, starts_with};
use crate::text::split;
use crate::text::split::{join, lines, split, trim};

verus! {

/// The user that a database is reached as where none is given.
pub open spec fn default_user(t: DatabaseType) -> Seq<char> {
    match t {
        DatabaseType::Postgres => "postgres"@,
        DatabaseType::Mysql => "root"@,
    }
}

/// The user that a connection is made as.
pub open spec fn user_of(conn: DbConnectionConfig) -> Seq<char> {
    match conn.username {
        Some(u) => u@,
        None => default_user(conn.db_type),
    }
}

/// The user and the password of a connection.
pub fn get_db_credentials(conn: &DbConnectionConfig) -> (r: (String, Option<String>))
    ensures
        r.0@ == user_of(*conn),
        r.1 == conn.password,
{
    let username = match &conn.username {
        Some(u) => u.clone(),
        None => match conn.db_type {
            DatabaseType::Postgres => "postgres".to_owned(),
            DatabaseType::Mysql => "root".to_owned(),
        },
    };
    (username, conn.password.clone())
}

/// The arguments of the docker command that hands `sql` to the database.
pub open spec fn db_args(conn: DbConnectionConfig, sql: Seq<char>) -> Seq<Seq<char>> {
    match conn.db_type {
        DatabaseType::Postgres => seq![
            "exec"@,
            "-i"@,
            conn.container@,
            "psql"@,
            "-U"@,
            user_of(conn),
            "-d"@,
            conn.database@,
            "-c"@,
            sql,
        ],
        DatabaseType::Mysql => {
            let head = seq!["exec"@, "-i"@, conn.container@, "mysql"@, "-u"@, user_of(conn)];
            let login = match conn.password {
                Some(p) => head.push("-p"@ + p@),
                None => head,
            };
            login + seq![conn.database@, "-e"@, sql]
        },
    }
}

/// The variables that are set for the docker command.
pub open spec fn db_envs(conn: DbConnectionConfig) -> Seq<(Seq<char>, Seq<char>)> {
    match (conn.db_type, conn.password) {
        (DatabaseType::Postgres, Some(p)) => seq![("PGPASSWORD"@, p@)],
        _ => seq![],
    }
}

/// The contents of a list of variables.
pub open spec fn pair_views(v: Seq<(String, String)>) -> Seq<(Seq<char>, Seq<char>)> {
    v.map_values(|p: (String, String)| (p.0@, p.1@))
}

/// The docker command that hands `sql` to the database.
pub fn db_command(conn: &DbConnectionConfig, sql: &str) -> (r: CommandLine)
    ensures
        r.program@ == "docker"@,
        chars::views(r.args@) == db_args(*conn, sql@),
        pair_views(r.envs@) == db_envs(*conn),
{
    let (username, password) = get_db_credentials(conn);
    let mut args: Vec<String> = Vec::new();
    let mut envs: Vec<(String, String)> = Vec::new();
    args.push("exec".to_owned());
    args.push("-i".to_owned());
    args.push(conn.container.clone());
    match conn.db_type {
        DatabaseType::Postgres => {
            args.push("psql".to_owned());
            args.push("-U".to_owned());
            args.push(username);
            args.push("-d".to_owned());
            args.push(conn.database.clone());
            args.push("-c".to_owned());
            args.push(sql.to_owned());
            if let Some(pwd) = password {
                envs.push(("PGPASSWORD".to_owned(), pwd));
            }
        },
        DatabaseType::Mysql => {
            args.push("mysql".to_owned());
            args.push("-u".to_owned());
            args.push(username);
            if let Some(pwd) = password {
                args.push(concat2("-p", pwd.as_str()));
            }
            args.push(conn.database.clone());
            args.push("-e".to_owned());
            args.push(sql.to_owned());
        },
    }
    assert(chars::views(args@) =~= db_args(*conn, sql@));
    assert(pair_views(envs@) =~= db_envs(*conn));
    CommandLine { program: "docker".to_owned(), args, envs }
}

/// What the database command gives: the text of its output, or an error.
pub fn db_output(output: Result<CommandOutput, String>) -> (r: ApiResult<String>)
    ensures
        match output {
            Err(e) => r is Err && r->Err_0 is Internal && r->Err_0.parts().1
                == "Failed to execute command: "@ + e@,
            Ok(o) => if o.success {
                r is Ok && r->Ok_0 == o.stdout
            } else {
                r is Err && r->Err_0 is Internal && r->Err_0.parts().1 == "Database error: "@
                    + o.stderr@
            },
        },
{
    match output {
        Err(e) => Err(
            ApiError::internal(concat2("Failed to execute command: ", e.as_str()).as_str()),
        ),
        Ok(o) => if o.success {
            Ok(o.stdout)
        } else {
            Err(ApiError::internal(concat2("Database error: ", o.stderr.as_str()).as_str()))
        },
    }
}

/// What the database command gives where it may take so many seconds, from
/// its output, or from nothing where the time was over.
pub fn db_output_within(output: Option<Result<CommandOutput, String>>, timeout_seconds: u32) -> (r:
    ApiResult<String>)
    ensures
        match output {
            None => r is Err && r->Err_0 is Internal && r->Err_0.parts().1
                == "Database command timed out after "@ + number::decimal_spec(
                timeout_seconds as nat,
            ) + " seconds"@,
            Some(Err(e)) => r is Err && r->Err_0 is Internal && r->Err_0.parts().1
                == "Failed to execute command: "@ + e@,
            Some(Ok(o)) => if o.success {
                r is Ok && r->Ok_0 == o.stdout
            } else {
                r is Err && r->Err_0 is Internal && r->Err_0.parts().1 == "Database error: "@
                    + o.stderr@
            },
        },
{
    match output {
        None => Err(
            ApiError::internal(
                concat3(
                    "Database command timed out after ",
                    decimal(timeout_seconds as u64).as_str(),
                    " seconds",
                ).as_str(),
            ),
        ),
        Some(output) => db_output(output),
    }
}

/// The list of databases is not gathered: it is empty.
pub fn db_list_databases(_request: &ListDatabasesRequest) -> (r: ListDatabasesResponse)
    ensures
        r.databases@.len() == 0,
{
    ListDatabasesResponse { databases: Vec::new() }
}

/// The schema of a request, "public" by default.
pub open spec fn schema_of(schema: Option<String>) -> Seq<char> {
    match schema {
        Some(s) => s@,
        None => "public"@,
    }
}

fn schema_text(schema: &Option<String>) -> (r: String)
    ensures
        r@ == schema_of(*schema),
{
    match schema {
        Some(s) => s.clone(),
        None => "public".to_owned(),
    }
}

/// The SQL that lists the tables.
pub fn list_tables_sql(request: &ListTablesRequest) -> (r: String)
    ensures
        r@ == "SELECT table_name FROM information_schema.tables WHERE table_schema = '"@
            + schema_of(request.schema) + "'"@,
{
    concat3(
        "SELECT table_name FROM information_schema.tables WHERE table_schema = '",
        schema_text(&request.schema).as_str(),
        "'",
    )
}

/// The line is a line of data: it is not empty, no rule, and not the heading.
pub open spec fn is_data_line(line: Seq<char>, heading: Seq<char>) -> bool {
    line.len() > 0 && !search::has_prefix(line, "-"@) && !search::has_substring(line, heading)
}

fn data_line(line: &str, heading: &str) -> (r: bool)
    ensures
        r == is_data_line(line@, heading@),
{
    !line.is_empty() && !starts_with(line, "-") && !contains(line, heading)
}

/// The name of the table that a line holds.
pub open spec fn table_of(line: Seq<char>) -> Option<Seq<char>> {
    if is_data_line(line, "table_name"@) {
        Some(split::trim_spec(line))
    } else {
        None
    }
}

/// The names of the tables that the output lists.
pub open spec fn tables_of(output: Seq<char>) -> Seq<Seq<char>> {
    collections::keep_some(split::lines_spec(output).map_values(|l: Seq<char>| table_of(l)))
}

/// The names of a list of tables.
pub open spec fn table_names(v: Seq<TableInfo>) -> Seq<Seq<char>> {
    v.map_values(|t: TableInfo| t.name@)
}

/// Answers the request for the tables from the output of the database.
pub fn db_list_tables(request: &ListTablesRequest, output: &str) -> (r: ListTablesResponse)
    ensures
        r.database == request.connection.database,
        table_names(r.tables@) == tables_of(output@),
        forall|i: int|
            0 <= i < r.tables@.len() ==> {
                &&& chars::opt_view((#[trigger] r.tables@[i]).schema) == Some(
                    schema_of(request.schema),
                )
                &&& r.tables@[i].row_count is None
                &&& r.tables@[i].size_bytes is None
            },
{
    let all_lines = lines(output);
    let ghost all = split::lines_spec(output@).map_values(|l: Seq<char>| table_of(l));
    let mut tables: Vec<TableInfo> = Vec::new();
    let mut i: usize = 0;
    assert(table_names(tables@) =~= collections::keep_some(all.take(0)));
    while i < all_lines.len()
        invariant
            i <= all_lines@.len(),
            chars::views(all_lines@) == split::lines_spec(output@),
            all == split::lines_spec(output@).map_values(|l: Seq<char>| table_of(l)),
            table_names(tables@) == collections::keep_some(all.take(i as int)),
            forall|j: int|
                0 <= j < tables@.len() ==> {
                    &&& chars::opt_view((#[trigger] tables@[j]).schema) == Some(
                        schema_of(request.schema),
                    )
                    &&& tables@[j].row_count is None
                    &&& tables@[j].size_bytes is None
                },
        decreases all_lines@.len() - i,
    {
        proof {
            collections::lemma_keep_some_step(all, i as int);
            assert(all_lines@[i as int]@ == chars::views(all_lines@)[i as int]);
        }
        let line = all_lines[i].as_str();
        if data_line(line, "table_name") {
            let t = TableInfo {
                name: trim(line),
                schema: Some(schema_text(&request.schema)),
                row_count: None,
                size_bytes: None,
            };
            let ghost before = tables@;
            tables.push(t);
            assert(table_names(tables@) =~= table_names(before).push(t.name@));
        }
        i = i + 1;
    }
    assert(all.take(all.len() as int) =~= all);
    ListTablesResponse { tables, database: request.connection.database.clone() }
}

/// The SQL that describes a table.
pub open spec fn schema_sql_spec(request: GetSchemaRequest) -> Seq<char> {
    match request.connection.db_type {
        DatabaseType::Postgres =>
            "SELECT column_name, data_type, is_nullable, column_default FROM information_schema.columns WHERE table_schema = '"@
            + schema_of(request.schema) + "' AND table_name = '"@ + request.table@ + "'"@,
        DatabaseType::Mysql =>
            "SELECT COLUMN_NAME, DATA_TYPE, IS_NULLABLE, COLUMN_DEFAULT FROM information_schema.columns WHERE table_schema = '"@
            + request.connection.database@ + "' AND table_name = '"@ + request.table@ + "'"@,
    }
}

/// The SQL that describes a table.
pub fn schema_sql(request: &GetSchemaRequest) -> (r: String)
    ensures
        r@ == schema_sql_spec(*request),
{
    match request.connection.db_type {
        DatabaseType::Postgres => concat5(
            "SELECT column_name, data_type, is_nullable, column_default FROM information_schema.columns WHERE table_schema = '",
            schema_text(&request.schema).as_str(),
            "' AND table_name = '",
            request.table.as_str(),
            "'",
        ),
        DatabaseType::Mysql => concat5(
            "SELECT COLUMN_NAME, DATA_TYPE, IS_NULLABLE, COLUMN_DEFAULT FROM information_schema.columns WHERE table_schema = '",
            request.connection.database.as_str(),
            "' AND table_name = '",
            request.table.as_str(),
            "'",
        ),
    }
}

/// The fields of a line of a table, without white space around them.
pub open spec fn cells_of(line: Seq<char>) -> Seq<Seq<char>> {
    split::split_spec(line, '|').map_values(|s: Seq<char>| split::trim_spec(s))
}

/// Splits a line of a table.
fn cells(line: &str) -> (r: Vec<String>)
    ensures
        chars::views(r@) == cells_of(line@),
{
    let parts = split(line, '|');
    let mut r: Vec<String> = Vec::new();
    let mut i: usize = 0;
    while i < parts.len()
        invariant
            i <= parts@.len(),
            chars::views(parts@) == split::split_spec(line@, '|'),
            chars::views(r@) == cells_of(line@).take(i as int),
        decreases parts@.len() - i,
    {
        let ghost before = r@;
        let t = trim(parts[i].as_str());
        r.push(t);
        assert(parts@[i as int]@ == chars::views(parts@)[i as int]);
        assert(chars::views(r@) =~= chars::views(before).push(t@));
        i = i + 1;
        assert(chars::views(r@) =~= cells_of(line@).take(i as int));
    }
    assert(cells_of(line@).take(cells_of(line@).len() as int) =~= cells_of(line@));
    r
}

/// The cell holds no value.
pub open spec fn is_null(cell: Seq<char>) -> bool {
    cell.len() == 0 || cell == "NULL"@
}

/// The value of a cell.
pub open spec fn cell_value(cell: Seq<char>) -> Option<Seq<char>> {
    if is_null(cell) {
        None
    } else {
        Some(cell)
    }
}

fn value_of(cell: &String) -> (r: Option<String>)
    ensures
        chars::opt_view(r) == cell_value(cell@),
{
    if cell.as_str().is_empty() || str_eq(cell.as_str(), "NULL") {
        None
    } else {
        Some(cell.clone())
    }
}

/// The column that a line describes.
pub open spec fn column_of(line: Seq<char>) -> Option<database::ColumnInfoView> {
    let parts = cells_of(line);
    if is_data_line(line, "column_name"@) && parts.len() >= 4 {
        Some(
            database::ColumnInfoView {
                name: parts[0],
                data_type: parts[1],
                is_nullable: parts[2] == "YES"@,
                default_value: cell_value(parts[3]),
                is_primary_key: false,
            },
        )
    } else {
        None
    }
}

/// The columns that the output describes.
pub open spec fn columns_of(output: Seq<char>) -> Seq<database::ColumnInfoView> {
    collections::keep_some(split::lines_spec(output).map_values(|l: Seq<char>| column_of(l)))
}

/// The contents of a list of columns.
pub open spec fn column_views(v: Seq<ColumnInfo>) -> Seq<database::ColumnInfoView> {
    v.map_values(|c: ColumnInfo| c@)
}

/// Answers the request for the columns of a table from the output of the
/// database.
pub fn db_get_schema(request: &GetSchemaRequest, output: &str) -> (r: GetSchemaResponse)
    ensures
        r.table == request.table,
        column_views(r.columns@) == columns_of(output@),
        r.indexes@.len() == 0,
        r.row_count is None,
{
    let all_lines = lines(output);
    let ghost all = split::lines_spec(output@).map_values(|l: Seq<char>| column_of(l));
    let mut columns: Vec<ColumnInfo> = Vec::new();
    let mut i: usize = 0;
    assert(column_views(columns@) =~= collections::keep_some(all.take(0)));
    while i < all_lines.len()
        invariant
            i <= all_lines@.len(),
            chars::views(all_lines@) == split::lines_spec(output@),
            all == split::lines_spec(output@).map_values(|l: Seq<char>| column_of(l)),
            column_views(columns@) == collections::keep_some(all.take(i as int)),
        decreases all_lines@.len() - i,
    {
        proof {
            collections::lemma_keep_some_step(all, i as int);
            assert(all_lines@[i as int]@ == chars::views(all_lines@)[i as int]);
        }
        let line = all_lines[i].as_str();
        let parts = cells(line);
        if data_line(line, "column_name") && parts.len() >= 4 {
            let c = ColumnInfo {
                name: parts[0].clone(),
                data_type: parts[1].clone(),
                is_nullable: str_eq(parts[2].as_str(), "YES"),
                default_value: value_of(&parts[3]),
                is_primary_key: false,
            };
            let ghost before = columns@;
            columns.push(c);
            assert(column_views(columns@) =~= column_views(before).push(c@));
        }
        i = i + 1;
    }
    assert(all.take(all.len() as int) =~= all);
    GetSchemaResponse {
        table: request.table.clone(),
        columns,
        indexes: Vec::new(),
        row_count: None,
    }
}

/// The error that a text which is not valid is answered with.
fn invalid_sql(validation: SqlValidation) -> (r: ApiError)
    ensures
        r is BadRequest,
        r.parts().1 == match validation.error {
            Some(e) => e@,
            None => "Invalid SQL"@,
        },
{
    match validation.error {
        Some(e) => ApiError::bad_request(e.as_str()),
        None => ApiError::bad_request("Invalid SQL"),
    }
}

/// Whether the upper-case text reads data only.
pub open spec fn starts_query(upper: Seq<char>) -> bool {
    search::has_prefix(upper, "SELECT"@) || search::has_prefix(upper, "WITH"@)
}

/// What is said of the text of a query before it runs.
pub open spec fn query_validation(sql: Seq<char>) -> database::SqlValidationView {
    database::validation_of(
        sql,
        case::uppercase_of(split::trim_spec(sql)),
        case::uppercase_of(sql),
        false,
    )
}

/// Lets a query through exactly where its text is valid and reads data only.
pub fn check_query(request: &DbQueryRequest) -> (r: ApiResult<()>)
    ensures
        ({
            let v = query_validation(request.sql@);
            if !v.valid {
                r is Err && r->Err_0 is BadRequest && Some(r->Err_0.parts().1) == v.error
            } else if !starts_query(case::uppercase_of(split::trim_spec(request.sql@))) {
                r is Err && r->Err_0 is BadRequest && r->Err_0.parts().1
                    == "Only SELECT queries are allowed. Use /db/execute for other operations."@
            } else {
                r is Ok
            }
        }),
{
    let validation = validate_sql(request.sql.as_str(), false);
    if !validation.valid {
        return Err(invalid_sql(validation));
    }
    let upper = to_uppercase(trim(request.sql.as_str()).as_str());
    if !starts_with(upper.as_str(), "SELECT") && !starts_with(upper.as_str(), "WITH") {
        return Err(
            ApiError::bad_request(
                "Only SELECT queries are allowed. Use /db/execute for other operations.",
            ),
        );
    }
    Ok(())
}

/// The values of a line of the result, where it has as many cells as there
/// are columns and is no summary.
pub open spec fn row_of(line: Seq<char>, width: int) -> Option<Seq<Option<Seq<char>>>> {
    if line.len() == 0 || search::has_prefix(line, "("@) || cells_of(line).len() != width {
        None
    } else {
        Some(cells_of(line).map_values(|c: Seq<char>| cell_value(c)))
    }
}

/// The columns of a result: the cells of its first line.
pub open spec fn result_columns(output: Seq<char>) -> Seq<Seq<char>> {
    let all = split::lines_spec(output);
    if all.len() > 0 {
        cells_of(all[0])
    } else {
        Seq::empty()
    }
}

/// The rows of a result: those behind the heading and the rule.
pub open spec fn result_rows(output: Seq<char>) -> Seq<Seq<Option<Seq<char>>>> {
    let all = split::lines_spec(output);
    let width = result_columns(output).len() as int;
    if all.len() <= 2 {
        Seq::empty()
    } else {
        collections::keep_some(
            all.subrange(2, all.len() as int).map_values(|l: Seq<char>| row_of(l, width)),
        )
    }
}

/// The contents of a row.
pub open spec fn row_view(row: Vec<Option<String>>) -> Seq<Option<Seq<char>>> {
    row@.map_values(|c: Option<String>| chars::opt_view(c))
}

/// The contents of a list of rows.
pub open spec fn row_views(rows: Seq<Vec<Option<String>>>) -> Seq<Seq<Option<Seq<char>>>> {
    rows.map_values(|row: Vec<Option<String>>| row_view(row))
}

fn parse_row(line: &str, width: usize) -> (r: Option<Vec<Option<String>>>)
    ensures
        r is Some <==> row_of(line@, width as int) is Some,
        r matches Some(row) ==> row_of(line@, width as int) == Some(row_view(row)),
{
    if line.is_empty() || starts_with(line, "(") {
        return None;
    }
    let parts = cells(line);
    if parts.len() != width {
        return None;
    }
    let ghost all = cells_of(line@).map_values(|c: Seq<char>| cell_value(c));
    let mut row: Vec<Option<String>> = Vec::new();
    let mut i: usize = 0;
    while i < parts.len()
        invariant
            i <= parts@.len(),
            chars::views(parts@) == cells_of(line@),
            all == cells_of(line@).map_values(|c: Seq<char>| cell_value(c)),
            row_view(row) == all.take(i as int),
        decreases parts@.len() - i,
    {
        let ghost before = row_view(row);
        let v = value_of(&parts[i]);
        row.push(v);
        assert(parts@[i as int]@ == chars::views(parts@)[i as int]);
        assert(row_view(row) =~= before.push(chars::opt_view(v)));
        assert(all[i as int] == cell_value(parts@[i as int]@));
        i = i + 1;
        assert(row_view(row) =~= all.take(i as int));
    }
    assert(all.take(all.len() as int) =~= all);
    Some(row)
}

/// As many of the rows as are wanted, from the first on.
pub open spec fn wanted_rows(
    rows: Seq<Seq<Option<Seq<char>>>>,
    max_rows: usize,
) -> Seq<Seq<Option<Seq<char>>>> {
    if rows.len() <= max_rows {
        rows
    } else {
        rows.take(max_rows as int)
    }
}

/// The warning of a result with as many rows as were wanted.
pub open spec fn row_warning(rows: int, max_rows: usize) -> Option<Seq<char>> {
    if rows >= max_rows {
        Some("Results limited to "@ + number::decimal_spec(max_rows as nat) + " rows"@)
    } else {
        None
    }
}

/// A value that is kept is one of the list.
proof fn lemma_kept_from<T>(s: Seq<Option<T>>, i: int)
    requires
        0 <= i < collections::keep_some(s).len(),
    ensures
        exists|j: int| 0 <= j < s.len() && #[trigger] s[j] == Some(collections::keep_some(s)[i]),
    decreases s.len(),
{
    if s.len() > 0 {
        let before = s.drop_last();
        let rest = collections::keep_some(before);
        if i < rest.len() {
            lemma_kept_from(before, i);
            let j = choose|j: int| 0 <= j < before.len() && #[trigger] before[j] == Some(rest[i]);
            assert(s[j] == Some(rest[i]));
        } else {
            assert(s[s.len() - 1] == Some(collections::keep_some(s)[i]));
        }
    }
}

/// Every row of a result has as many cells as there are columns.
proof fn lemma_row_width(output: Seq<char>, i: int)
    requires
        0 <= i < result_rows(output).len(),
    ensures
        result_rows(output)[i].len() == result_columns(output).len(),
{
    let all = split::lines_spec(output);
    let width = result_columns(output).len() as int;
    if all.len() > 2 {
        let wanted = all.subrange(2, all.len() as int).map_values(|l: Seq<char>| row_of(l, width));
        lemma_kept_from(wanted, i);
    }
}

/// Answers a query from the output of the database.
pub fn db_execute_query(request: &DbQueryRequest, output: &str, execution_time_ms: u64) -> (r:
    DbQueryResponse)
    ensures
        r.success,
        chars::views(r.columns@) == result_columns(output@),
        row_views(r.rows@) == wanted_rows(result_rows(output@), request.max_rows),
        r.row_count == r.rows@.len(),
        r.row_count <= request.max_rows,
        forall|i: int|
            0 <= i < r.rows@.len() ==> (#[trigger] r.rows@[i])@.len() == r.columns@.len(),
        r.execution_time_ms == execution_time_ms,
        chars::opt_view(r.warning) == row_warning(r.rows@.len() as int, request.max_rows),
{
    let all_lines = lines(output);
    let mut columns: Vec<String> = Vec::new();
    let mut rows: Vec<Vec<Option<String>>> = Vec::new();
    let ghost all = split::lines_spec(output@);
    assert(chars::views(columns@) =~= Seq::empty());
    assert(row_views(rows@) =~= Seq::empty());
    if all_lines.len() > 0 {
        columns = cells(all_lines[0].as_str());
        assert(all_lines@[0]@ == chars::views(all_lines@)[0]);
    }
    let width = columns.len();
    if all_lines.len() > 2 {
        let ghost wanted = all.subrange(2, all.len() as int).map_values(
            |l: Seq<char>| row_of(l, width as int),
        );
        let mut i: usize = 2;
        assert(row_views(rows@) =~= collections::keep_some(wanted.take(0)));
        while i < all_lines.len()
            invariant
                2 <= i <= all_lines@.len(),
                all == split::lines_spec(output@),
                chars::views(all_lines@) == all,
                wanted == all.subrange(2, all.len() as int).map_values(
                    |l: Seq<char>| row_of(l, width as int),
                ),
                row_views(rows@) == collections::keep_some(wanted.take(i - 2)),
            decreases all_lines@.len() - i,
        {
            proof {
                collections::lemma_keep_some_step(wanted, i - 2);
                assert(all_lines@[i as int]@ == chars::views(all_lines@)[i as int]);
            }
            if let Some(row) = parse_row(all_lines[i].as_str(), width) {
                let ghost before = rows@;
                rows.push(row);
                assert(row_views(rows@) =~= row_views(before).push(row_view(row)));
            }
            i = i + 1;
        }
        assert(wanted.take(wanted.len() as int) =~= wanted);
    }
    let ghost found = rows@;
    assert(row_views(found) == result_rows(output@));
    rows.truncate(request.max_rows);
    proof {
        assert(row_views(rows@) =~= wanted_rows(row_views(found), request.max_rows));
        assert forall|i: int| 0 <= i < rows@.len() implies (#[trigger] rows@[i])@.len() == width by {
            assert(row_views(found)[i] == row_view(rows@[i]));
            lemma_row_width(output@, i);
        }
    }
    let row_count = rows.len();
    let warning = if row_count >= request.max_rows {
        Some(concat3("Results limited to ", decimal(request.max_rows as u64).as_str(), " rows"))
    } else {
        None
    };
    DbQueryResponse { success: true, columns, rows, row_count, execution_time_ms, warning }
}

/// What is to happen with a command.
#[derive(Debug)]
pub enum ExecuteDecision {
    /// It is run.
    Run,
    /// It is answered at once.
    Answer(DbExecuteResponse),
}

/// What is said of the text of a command before it runs.
pub open spec fn command_validation(sql: Seq<char>) -> database::SqlValidationView {
    database::validation_of(
        sql,
        case::uppercase_of(split::trim_spec(sql)),
        case::uppercase_of(sql),
        true,
    )
}

/// Decides on a command: a text that is not valid is an error, and a
/// dangerous one that is not confirmed is answered without running it.
pub fn check_execute(request: &DbExecuteRequest) -> (r: ApiResult<ExecuteDecision>)
    ensures
        ({
            let v = command_validation(request.sql@);
            let danger = database::holds_danger(case::uppercase_of(request.sql@));
            if !v.valid {
                r is Err && r->Err_0 is BadRequest && Some(r->Err_0.parts().1) == v.error
            } else if danger && !request.confirm_dangerous {
                &&& r is Ok
                &&& r->Ok_0 matches ExecuteDecision::Answer(a)
                &&& !a.success
                &&& a.affected_rows == 0
                &&& a.execution_time_ms == 0
                &&& chars::opt_view(a.warning) == Some("Dangerous operation detected"@)
                &&& chars::opt_view(a.error) == Some(
                    "This operation (DELETE/TRUNCATE/DROP/ALTER) requires confirm_dangerous=true"@,
                )
            } else {
                r is Ok && r->Ok_0 is Run
            }
        }),
{
    let validation = validate_sql(request.sql.as_str(), true);
    if !validation.valid {
        return Err(invalid_sql(validation));
    }
    if is_dangerous_sql(request.sql.as_str()) && !request.confirm_dangerous {
        return Ok(
            ExecuteDecision::Answer(
                DbExecuteResponse {
                    success: false,
                    affected_rows: 0,
                    execution_time_ms: 0,
                    warning: Some("Dangerous operation detected".to_owned()),
                    error: Some(
                        "This operation (DELETE/TRUNCATE/DROP/ALTER) requires confirm_dangerous=true".to_owned(),
                    ),
                },
            ),
        );
    }
    Ok(ExecuteDecision::Run)
}

/// The line reports how many rows a command touched.
pub open spec fn reports_rows(line: Seq<char>) -> bool {
    ||| search::has_substring(line, "INSERT"@)
    ||| search::has_substring(line, "UPDATE"@)
    ||| search::has_substring(line, "DELETE"@)
}

/// The number that a report ends with, or 0.
pub open spec fn reported_rows(line: Seq<char>) -> int {
    let w = edit::words_spec(line);
    if w.len() > 0 {
        match number::parse_signed_spec(w.last()) {
            Some(n) => n,
            None => 0,
        }
    } else {
        0
    }
}

/// The rows that the first report of a list of lines names, or 0.
pub open spec fn affected_of(all: Seq<Seq<char>>) -> int
    decreases all.len(),
{
    if all.len() == 0 {
        0
    } else if reports_rows(all[0]) {
        reported_rows(all[0])
    } else {
        affected_of(all.subrange(1, all.len() as int))
    }
}

/// Reads how many rows a command touched.
pub fn affected_rows(output: &str) -> (r: i64)
    ensures
        r == affected_of(split::lines_spec(output@)),
{
    let all_lines = lines(output);
    let ghost all = split::lines_spec(output@);
    let mut i: usize = 0;
    assert(all.subrange(0, all.len() as int) =~= all);
    while i < all_lines.len()
        invariant
            i <= all_lines@.len(),
            all == split::lines_spec(output@),
            chars::views(all_lines@) == all,
            affected_of(all) == affected_of(all.subrange(i as int, all.len() as int)),
        decreases all_lines@.len() - i,
    {
        let line = all_lines[i].as_str();
        let ghost rest = all.subrange(i as int, all.len() as int);
        proof {
            assert(all_lines@[i as int]@ == chars::views(all_lines@)[i as int]);
            assert(rest[0] == line@);
        }
        if contains(line, "INSERT") || contains(line, "UPDATE") || contains(line, "DELETE") {
            let w = words(line);
            if w.len() > 0 {
                proof {
                    assert(w@[w@.len() - 1]@ == chars::views(w@).last());
                }
                return match parse_i64(w[w.len() - 1].as_str()) {
                    Some(n) => n,
                    None => 0,
                };
            }
            return 0;
        }
        assert(rest.subrange(1, rest.len() as int) =~= all.subrange(i + 1, all.len() as int));
        i = i + 1;
    }
    0
}

/// Answers a command from what the database gave: its output, or an error.
pub fn db_execute_command(result: ApiResult<String>, execution_time_ms: u64) -> (r:
    DbExecuteResponse)
    ensures
        r.execution_time_ms == execution_time_ms,
        r.warning is None,
        match result {
            Ok(output) => {
                &&& r.success
                &&& r.affected_rows == affected_of(split::lines_spec(output@))
                &&& r.error is None
            },
            Err(e) => {
                &&& !r.success
                &&& r.affected_rows == 0
                &&& chars::opt_view(r.error) == Some(e.text())
            },
        },
{
    match result {
        Ok(output) => DbExecuteResponse {
            success: true,
            affected_rows: affected_rows(output.as_str()),
            execution_time_ms,
            warning: None,
            error: None,
        },
        Err(e) => DbExecuteResponse {
            success: false,
            affected_rows: 0,
            execution_time_ms,
            warning: None,
            error: Some(e.to_text()),
        },
    }
}

/// The SQL of an export.
pub fn export_sql(request: &DbExportRequest) -> (r: String)
    ensures
        r@ == if request.is_query {
            request.source@
        } else {
            "SELECT * FROM "@ + request.source@ + " LIMIT "@ + number::decimal_spec(
                request.max_rows as nat,
            )
        },
{
    if request.is_query {
        request.source.clone()
    } else {
        concat4(
            "SELECT * FROM ",
            request.source.as_str(),
            " LIMIT ",
            decimal(request.max_rows as u64).as_str(),
        )
    }
}

/// The CSV line for a line of a table.
pub open spec fn csv_line(line: Seq<char>) -> Option<Seq<char>> {
    if line.len() == 0 || search::has_prefix(line, "-"@) {
        None
    } else {
        Some(split::join_spec(cells_of(line), ","@))
    }
}

/// The CSV text for a table.
pub open spec fn csv_of(output: Seq<char>) -> Seq<char> {
    split::join_spec(
        collections::keep_some(split::lines_spec(output).map_values(|l: Seq<char>| csv_line(l))),
        "\n"@,
    )
}

/// Writes a table as CSV.
pub fn to_csv(output: &str) -> (r: String)
    ensures
        r@ == csv_of(output@),
{
    let all_lines = lines(output);
    let ghost all = split::lines_spec(output@).map_values(|l: Seq<char>| csv_line(l));
    let mut out: Vec<String> = Vec::new();
    let mut i: usize = 0;
    assert(chars::views(out@) =~= collections::keep_some(all.take(0)));
    while i < all_lines.len()
        invariant
            i <= all_lines@.len(),
            chars::views(all_lines@) == split::lines_spec(output@),
            all == split::lines_spec(output@).map_values(|l: Seq<char>| csv_line(l)),
            chars::views(out@) == collections::keep_some(all.take(i as int)),
        decreases all_lines@.len() - i,
    {
        proof {
            collections::lemma_keep_some_step(all, i as int);
            assert(all_lines@[i as int]@ == chars::views(all_lines@)[i as int]);
        }
        let line = all_lines[i].as_str();
        if !line.is_empty() && !starts_with(line, "-") {
            let ghost before = out@;
            let c = join(&cells(line), ",");
            out.push(c);
            assert(chars::views(out@) =~= chars::views(before).push(c@));
        }
        i = i + 1;
    }
    assert(all.take(all.len() as int) =~= all);
    join(&out, "\n")
}

/// The line shows a row: it is neither empty nor a rule nor the footer, which
/// begins with a bracket.
pub open spec fn is_row(line: Seq<char>) -> bool {
    csv_line(line) is Some && !search::has_prefix(line, "("@)
}

/// How many of the lines behind the header show rows.
pub open spec fn table_rows(all: Seq<Seq<char>>) -> nat
    decreases all.len(),
{
    if all.len() <= 1 {
        0
    } else {
        table_rows(all.drop_last()) + if is_row(all.last()) {
            1nat
        } else {
            0nat
        }
    }
}

/// The lines of a table before the first row that is too many.
pub open spec fn wanted_lines(all: Seq<Seq<char>>, max_rows: usize) -> Seq<Seq<char>>
    decreases all.len(),
{
    if table_rows(all) <= max_rows {
        all
    } else {
        wanted_lines(all.drop_last(), max_rows)
    }
}

/// The text of a table that has more rows than are wanted, without those that
/// are too many.
pub open spec fn cut_table(output: Seq<char>, max_rows: usize) -> Option<Seq<char>> {
    let all = split::lines_spec(output);
    if table_rows(all) <= max_rows {
        None
    } else {
        Some(split::join_spec(wanted_lines(all, max_rows), "\n"@))
    }
}

/// Lines behind the first row that is too many change nothing.
proof fn lemma_wanted_prefix(all: Seq<Seq<char>>, n: int, max_rows: usize)
    requires
        1 <= n < all.len(),
        table_rows(all.take(n)) == max_rows,
        is_row(all[n]),
    ensures
        table_rows(all) > max_rows,
        wanted_lines(all, max_rows) == all.take(n),
    decreases all.len(),
{
    if n == all.len() - 1 {
        assert(all.drop_last() =~= all.take(n));
        assert(wanted_lines(all.drop_last(), max_rows) == all.drop_last());
    } else {
        assert(all.drop_last().take(n) =~= all.take(n));
        lemma_wanted_prefix(all.drop_last(), n, max_rows);
    }
}

/// Cuts off the rows of a table that are too many, where there are such.
fn cut_rows(output: &str, max_rows: usize) -> (r: Option<String>)
    ensures
        chars::opt_view(r) == cut_table(output@, max_rows),
{
    let all_lines = lines(output);
    let ghost all = split::lines_spec(output@);
    let mut kept: Vec<String> = Vec::new();
    let mut seen: usize = 0;
    let mut i: usize = 0;
    assert(chars::views(kept@) =~= all.take(0));
    while i < all_lines.len()
        invariant
            i <= all_lines@.len(),
            seen <= i,
            seen <= max_rows,
            all == split::lines_spec(output@),
            chars::views(all_lines@) == all,
            chars::views(kept@) == all.take(i as int),
            seen == table_rows(all.take(i as int)),
        decreases all_lines@.len() - i,
    {
        let line = all_lines[i].as_str();
        proof {
            assert(all_lines@[i as int]@ == chars::views(all_lines@)[i as int]);
            assert(all.take(i + 1).drop_last() =~= all.take(i as int));
        }
        if i > 0 && !line.is_empty() && !starts_with(line, "-") && !starts_with(line, "(") {
            if seen == max_rows {
                proof {
                    lemma_wanted_prefix(all, i as int, max_rows);
                }
                return Some(join(&kept, "\n"));
            }
            seen = seen + 1;
        }
        let ghost before = kept@;
        kept.push(all_lines[i].clone());
        assert(chars::views(kept@) =~= all.take(i + 1)) by {
            assert(chars::views(kept@) =~= chars::views(before).push(line@));
        }
        i = i + 1;
    }
    assert(all.take(all.len() as int) =~= all);
    None
}

/// A table as an export writes it, and the number that goes with it: the lines
/// of the text, for CSV without the header.
pub open spec fn exported(request: DbExportRequest, table: Seq<char>) -> (Seq<char>, int) {
    let count = split::lines_spec(table).len() as int;
    match request.format {
        ExportFormat::Csv => {
            let lines = split::lines_spec(csv_of(table)).len() as int;
            (
                csv_of(table),
                if lines > 0 {
                    lines - 1
                } else {
                    0
                },
            )
        },
        ExportFormat::Json => (table, count),
        ExportFormat::Sql => ("-- SQL export for "@ + request.source@ + "\n"@ + table, count),
    }
}

/// The text and the number of an export. Rows that are too many are left out,
/// and the number is then that of the rows that stay.
pub open spec fn export_spec(request: DbExportRequest, output: Seq<char>) -> (Seq<char>, int) {
    match cut_table(output, request.max_rows) {
        Some(table) => (exported(request, table).0, request.max_rows as int),
        None => exported(request, output),
    }
}

/// Writes a table as an export does.
fn export(request: &DbExportRequest, table: &str) -> (r: (String, usize))
    ensures
        r.0@ == exported(*request, table@).0,
        r.1 == exported(*request, table@).1,
{
    let all = lines(table);
    assert(chars::views(all@).len() == all@.len());
    match request.format {
        ExportFormat::Csv => {
            let csv = to_csv(table);
            let shown = lines(csv.as_str());
            assert(chars::views(shown@).len() == shown@.len());
            let n: usize = if shown.len() > 0 {
                shown.len() - 1
            } else {
                0
            };
            (csv, n)
        },
        ExportFormat::Json => (table.to_owned(), all.len()),
        ExportFormat::Sql => (
            concat4("-- SQL export for ", request.source.as_str(), "\n", table),
            all.len(),
        ),
    }
}

/// Answers an export from the output of the database.
pub fn db_export_data(request: &DbExportRequest, output: &str, execution_time_ms: u64) -> (r:
    DbExportResponse)
    ensures
        r.success,
        r.format == request.format,
        r.data@ == export_spec(*request, output@).0,
        r.row_count == export_spec(*request, output@).1,
        r.execution_time_ms == execution_time_ms,
        r.warning is None,
{
    let (data, row_count) = match cut_rows(output, request.max_rows) {
        Some(table) => (export(request, table.as_str()).0, request.max_rows),
        None => export(request, output),
    };
    DbExportResponse {
        success: true,
        format: request.format,
        row_count,
        data,
        execution_time_ms,
        warning: None,
    }
}

} // verus!
