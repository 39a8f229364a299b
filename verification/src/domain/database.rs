//! Database administration.

use vstd::prelude::*;

use crate::text::case;
use crate::text::case::to_uppercase;
use crate::text::chars;
use crate::text::search;
use crate::text::search::{contains, starts_with};
use crate::text::split;
use crate::text::split::trim;

verus! {

/// The kind of database.
#[derive(Clone, Copy, Debug, PartialEq, Eq, Structural)]
pub enum DatabaseType {
    Postgres,
    Mysql,
}

impl DatabaseType {
    /// The name of the kind.
    pub open spec fn label(self) -> Seq<char> {
        match self {
            DatabaseType::Postgres => "postgres"@,
            DatabaseType::Mysql => "mysql"@,
        }
    }

    /// The name of the kind.
    pub fn as_str(&self) -> (r: &'static str)
        ensures
            r@ == self.label(),
    {
        match self {
            DatabaseType::Postgres => "postgres",
            DatabaseType::Mysql => "mysql",
        }
    }
}

/// How to reach a database.
#[derive(Clone, Debug)]
pub struct DbConnectionConfig {
    pub db_type: DatabaseType,
    /// Name of the container that it runs in.
    pub container: String,
    pub database: String,
    pub username: Option<String>,
    pub password: Option<String>,
}

/// Request for the list of databases.
#[derive(Debug)]
pub struct ListDatabasesRequest {
    pub db_type: Option<DatabaseType>,
}

/// A database.
#[derive(Debug)]
pub struct DatabaseInfo {
    pub name: String,
    pub db_type: DatabaseType,
    pub container: String,
    /// Size in bytes.
    pub size_bytes: Option<u64>,
}

/// The list of databases.
#[derive(Debug)]
pub struct ListDatabasesResponse {
    pub databases: Vec<DatabaseInfo>,
}

/// Request for the list of tables.
#[derive(Debug)]
pub struct ListTablesRequest {
    pub connection: DbConnectionConfig,
    /// Schema, "public" by default.
    pub schema: Option<String>,
}

/// A table.
#[derive(Debug)]
pub struct TableInfo {
    pub name: String,
    pub schema: Option<String>,
    pub row_count: Option<i64>,
    /// Size in bytes.
    pub size_bytes: Option<u64>,
}

/// The list of tables.
#[derive(Debug)]
pub struct ListTablesResponse {
    pub tables: Vec<TableInfo>,
    pub database: String,
}

/// Request for the columns of a table.
#[derive(Debug)]
pub struct GetSchemaRequest {
    pub connection: DbConnectionConfig,
    pub table: String,
    pub schema: Option<String>,
}

/// A column.
#[derive(Debug)]
pub struct ColumnInfo {
    pub name: String,
    pub data_type: String,
    pub is_nullable: bool,
    pub default_value: Option<String>,
    pub is_primary_key: bool,
}

/// The contents of a `ColumnInfo`.
pub ghost struct ColumnInfoView {
    pub name: Seq<char>,
    pub data_type: Seq<char>,
    pub is_nullable: bool,
    pub default_value: Option<Seq<char>>,
    pub is_primary_key: bool,
}

impl View for ColumnInfo {
    type V = ColumnInfoView;

    open spec fn view(&self) -> ColumnInfoView {
        ColumnInfoView {
            name: self.name@,
            data_type: self.data_type@,
            is_nullable: self.is_nullable,
            default_value: chars::opt_view(self.default_value),
            is_primary_key: self.is_primary_key,
        }
    }
}

/// An index.
#[derive(Debug)]
pub struct IndexInfo {
    pub name: String,
    pub columns: Vec<String>,
    pub is_unique: bool,
    pub is_primary: bool,
}

/// The columns of a table.
#[derive(Debug)]
pub struct GetSchemaResponse {
    pub table: String,
    pub columns: Vec<ColumnInfo>,
    pub indexes: Vec<IndexInfo>,
    pub row_count: Option<i64>,
}

/// Request to run a query.
#[derive(Debug)]
pub struct DbQueryRequest {
    pub connection: DbConnectionConfig,
    pub sql: String,
    pub max_rows: usize,
    pub timeout_seconds: u32,
}

/// The number of rows where a query names none.
pub fn default_max_rows() -> (r: usize)
    ensures
        r == 1000,
{
    1000
}

/// The time limit in seconds where a request names none.
pub fn default_timeout() -> (r: u32)
    ensures
        r == 30,
{
    30
}

/// The result of a query. A cell without a value is `None`.
#[derive(Debug)]
pub struct DbQueryResponse {
    pub success: bool,
    pub columns: Vec<String>,
    pub rows: Vec<Vec<Option<String>>>,
    pub row_count: usize,
    pub execution_time_ms: u64,
    pub warning: Option<String>,
}

/// Request to run a command that changes data.
#[derive(Debug)]
pub struct DbExecuteRequest {
    pub connection: DbConnectionConfig,
    pub sql: String,
    /// The caller knows that the command is dangerous.
    pub confirm_dangerous: bool,
    pub timeout_seconds: u32,
}

/// The result of a command.
#[derive(Debug)]
pub struct DbExecuteResponse {
    pub success: bool,
    pub affected_rows: i64,
    pub execution_time_ms: u64,
    pub warning: Option<String>,
    pub error: Option<String>,
}

/// The form of an export.
#[derive(Clone, Copy, Debug, PartialEq, Eq, Structural)]
pub enum ExportFormat {
    Csv,
    Json,
    Sql,
}

impl Default for ExportFormat {
    fn default() -> (r: ExportFormat)
        ensures
            r is Csv,
    {
        ExportFormat::Csv
    }
}

/// Request for an export.
#[derive(Debug)]
pub struct DbExportRequest {
    pub connection: DbConnectionConfig,
    /// A table, or a query.
    pub source: String,
    pub is_query: bool,
    pub format: ExportFormat,
    pub max_rows: usize,
}

/// The number of rows where an export names none.
pub fn default_export_max_rows() -> (r: usize)
    ensures
        r == 100_000,
{
    100_000
}

/// An export.
#[derive(Debug)]
pub struct DbExportResponse {
    pub success: bool,
    pub format: ExportFormat,
    pub row_count: usize,
    pub data: String,
    pub execution_time_ms: u64,
    pub warning: Option<String>,
}

/// What is to be said of an SQL text before it runs.
#[derive(Debug)]
pub struct SqlValidation {
    pub valid: bool,
    pub is_dangerous: bool,
    pub error: Option<String>,
}

/// The contents of an `SqlValidation`.
pub ghost struct SqlValidationView {
    pub valid: bool,
    pub is_dangerous: bool,
    pub error: Option<Seq<char>>,
}

impl View for SqlValidation {
    type V = SqlValidationView;

    open spec fn view(&self) -> SqlValidationView {
        SqlValidationView {
            valid: self.valid,
            is_dangerous: self.is_dangerous,
            error: chars::opt_view(self.error),
        }
    }
}

impl SqlValidation {
    /// Valid and harmless.
    pub fn ok() -> (r: SqlValidation)
        ensures
            r@ == (SqlValidationView { valid: true, is_dangerous: false, error: None }),
    {
        SqlValidation { valid: true, is_dangerous: false, error: None }
    }

    /// Valid and dangerous.
    pub fn dangerous() -> (r: SqlValidation)
        ensures
            r@ == (SqlValidationView { valid: true, is_dangerous: true, error: None }),
    {
        SqlValidation { valid: true, is_dangerous: true, error: None }
    }

    /// Not valid.
    pub fn invalid(error: &str) -> (r: SqlValidation)
        ensures
            r@ == (SqlValidationView { valid: false, is_dangerous: false, error: Some(error@) }),
    {
        SqlValidation { valid: false, is_dangerous: false, error: Some(error.to_owned()) }
    }
}

/// The upper-case SQL holds a word that destroys data.
pub open spec fn holds_danger(upper: Seq<char>) -> bool {
    ||| search::has_substring(upper, "DELETE"@)
    ||| search::has_substring(upper, "TRUNCATE"@)
    ||| search::has_substring(upper, "DROP"@)
    ||| search::has_substring(upper, "ALTER"@)
}

/// The upper-case SQL begins with a word that is allowed at the start.
pub open spec fn starts_statement(upper: Seq<char>) -> bool {
    ||| search::has_prefix(upper, "SELECT"@)
    ||| search::has_prefix(upper, "INSERT"@)
    ||| search::has_prefix(upper, "UPDATE"@)
    ||| search::has_prefix(upper, "DELETE"@)
    ||| search::has_prefix(upper, "WITH"@)
}

/// Whether the upper-case SQL holds a word that destroys data.
pub fn is_dangerous_uppercase(upper: &str) -> (r: bool)
    ensures
        r == holds_danger(upper@),
{
    contains(upper, "DELETE") || contains(upper, "TRUNCATE") || contains(upper, "DROP")
        || contains(upper, "ALTER")
}

/// Whether the SQL holds a word that destroys data, in any case of letters.
pub fn is_dangerous_sql(sql: &str) -> (r: bool)
    ensures
        r == holds_danger(case::uppercase_of(sql@)),
{
    is_dangerous_uppercase(to_uppercase(sql).as_str())
}

/// What is to be said of an SQL text: `trimmed_upper` is the text without
/// white space at its ends, in upper case, and `upper` the whole text in
/// upper case.
pub open spec fn validation_of(
    sql: Seq<char>,
    trimmed_upper: Seq<char>,
    upper: Seq<char>,
    check_dangerous: bool,
) -> SqlValidationView {
    if split::trim_spec(sql).len() == 0 {
        SqlValidationView { valid: false, is_dangerous: false, error: Some("SQL cannot be empty"@) }
    } else if !starts_statement(trimmed_upper) {
        SqlValidationView {
            valid: false,
            is_dangerous: false,
            error: Some("SQL must start with SELECT, INSERT, UPDATE, DELETE, or WITH"@),
        }
    } else {
        SqlValidationView {
            valid: true,
            is_dangerous: check_dangerous && holds_danger(upper),
            error: None,
        }
    }
}

/// Judges an SQL text whose upper-case forms are at hand.
pub fn validate_uppercase(
    sql: &str,
    trimmed_upper: &str,
    upper: &str,
    check_dangerous: bool,
) -> (r: SqlValidation)
    ensures
        r@ == validation_of(sql@, trimmed_upper@, upper@, check_dangerous),
{
    if trim(sql).as_str().is_empty() {
        return SqlValidation::invalid("SQL cannot be empty");
    }
    if !starts_with(trimmed_upper, "SELECT") && !starts_with(trimmed_upper, "INSERT")
        && !starts_with(trimmed_upper, "UPDATE") && !starts_with(trimmed_upper, "DELETE")
        && !starts_with(trimmed_upper, "WITH") {
        return SqlValidation::invalid(
            "SQL must start with SELECT, INSERT, UPDATE, DELETE, or WITH",
        );
    }
    if check_dangerous && is_dangerous_uppercase(upper) {
        return SqlValidation::dangerous();
    }
    SqlValidation::ok()
}

/// Judges an SQL text: it must not be empty and must begin with a statement;
/// where `check_dangerous` is set, words that destroy data are pointed out.
pub fn validate_sql(sql: &str, check_dangerous: bool) -> (r: SqlValidation)
    ensures
        r@ == validation_of(
            sql@,
            case::uppercase_of(split::trim_spec(sql@)),
            case::uppercase_of(sql@),
            check_dangerous,
        ),
{
    let trimmed_upper = to_uppercase(trim(sql).as_str());
    let upper = to_uppercase(sql);
    validate_uppercase(sql, trimmed_upper.as_str(), upper.as_str(), check_dangerous)
}

} // verus!
