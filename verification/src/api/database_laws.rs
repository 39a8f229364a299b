//! What the database operations let through, what they run, and what they read
//! from the output of the client.

use vstd::prelude::*;

use crate::api::database;
use crate::collections;
use crate::domain;
use crate::domain::database::{DatabaseType, DbConnectionConfig, DbExportRequest, GetSchemaRequest};
use crate::text::edit;
use crate::text::number;
use crate::text::search;
use crate::text::split;

verus! {

/// A statement is valid exactly where it is not blank and begins with one of the
/// five words, and the error says which of the two was missing. It is dangerous
/// exactly where that is looked at and it holds one of the four words.
pub proof fn statement_is_checked(
    sql: Seq<char>,
    trimmed_upper: Seq<char>,
    upper: Seq<char>,
    check: bool,
)
    ensures
        ({
            let v = domain::database::validation_of(sql, trimmed_upper, upper, check);
            let blank = split::trim_spec(sql).len() == 0;
            let begins = search::has_prefix(trimmed_upper, "SELECT"@) || search::has_prefix(
                trimmed_upper,
                "INSERT"@,
            ) || search::has_prefix(trimmed_upper, "UPDATE"@) || search::has_prefix(
                trimmed_upper,
                "DELETE"@,
            ) || search::has_prefix(trimmed_upper, "WITH"@);
            let danger = search::has_substring(upper, "DELETE"@) || search::has_substring(
                upper,
                "TRUNCATE"@,
            ) || search::has_substring(upper, "DROP"@) || search::has_substring(upper, "ALTER"@);
            &&& v.valid <==> !blank && begins
            &&& v.error is None <==> v.valid
            &&& blank ==> v.error == Some("SQL cannot be empty"@)
            &&& !blank && !begins ==> v.error == Some(
                "SQL must start with SELECT, INSERT, UPDATE, DELETE, or WITH"@,
            )
            &&& v.is_dangerous <==> v.valid && check && danger
            &&& domain::database::holds_danger(upper) <==> danger
        }),
{
}

/// A query begins with one of two words, and its text is checked in upper case.
pub proof fn query_is_a_selection(sql: Seq<char>, upper: Seq<char>)
    ensures
        database::starts_query(upper) <==> search::has_prefix(upper, "SELECT"@)
            || search::has_prefix(upper, "WITH"@),
        database::query_validation(sql) == domain::database::validation_of(
            sql,
            crate::text::case::uppercase_of(split::trim_spec(sql)),
            crate::text::case::uppercase_of(sql),
            false,
        ),
        database::command_validation(sql) == domain::database::validation_of(
            sql,
            crate::text::case::uppercase_of(split::trim_spec(sql)),
            crate::text::case::uppercase_of(sql),
            true,
        ),
{
}

/// The statement is handed to the client of the database in its container, as
/// the user that is configured or the first user of the kind of database, on the
/// database that is configured. A password goes to psql by its environment, and
/// to mysql as an argument.
pub proof fn client_gets_the_statement(conn: DbConnectionConfig, sql: Seq<char>)
    ensures
        ({
            let args = database::db_args(conn, sql);
            let n = args.len() as int;
            &&& n >= 9
            &&& args[0] == "exec"@ && args[1] == "-i"@ && args[2] == conn.container@
            &&& args[n - 1] == sql
            &&& conn.username is Some ==> args[5] == conn.username->0@
            &&& conn.db_type is Postgres ==> {
                &&& n == 10
                &&& args[3] == "psql"@ && args[4] == "-U"@ && args[6] == "-d"@ && args[7]
                    == conn.database@ && args[8] == "-c"@
                &&& conn.username is None ==> args[5] == "postgres"@
                &&& conn.password is Some ==> database::db_envs(conn) == seq![
                    ("PGPASSWORD"@, conn.password->0@),
                ]
                &&& conn.password is None ==> database::db_envs(conn).len() == 0
            }
            &&& conn.db_type is Mysql ==> {
                &&& args[3] == "mysql"@ && args[4] == "-u"@ && args[n - 3] == conn.database@
                    && args[n - 2] == "-e"@
                &&& conn.username is None ==> args[5] == "root"@
                &&& conn.password is Some ==> n == 10 && args[6] == "-p"@ + conn.password->0@
                &&& conn.password is None ==> n == 9
                &&& database::db_envs(conn).len() == 0
            }
        }),
{
    if conn.db_type is Mysql {
        let head = seq!["exec"@, "-i"@, conn.container@, "mysql"@, "-u"@, database::user_of(conn)];
        let tail = seq![conn.database@, "-e"@, sql];
        if conn.password is Some {
            let login = head.push("-p"@ + conn.password->0@);
            assert(database::db_args(conn, sql) == login + tail);
            assert(login[6] == "-p"@ + conn.password->0@);
        } else {
            assert(database::db_args(conn, sql) == head + tail);
        }
        assert(tail[0] == conn.database@ && tail[1] == "-e"@ && tail[2] == sql);
    }
}

/// Each kind of database has its name.
pub proof fn databases_have_their_names(t: DatabaseType)
    ensures
        t is Postgres ==> t.label() == "postgres"@,
        t is Mysql ==> t.label() == "mysql"@,
{
}

/// The schema is the one that was asked for, or "public".
pub proof fn schema_is_public_by_default(schema: Option<String>)
    ensures
        schema is Some ==> database::schema_of(schema) == schema->0@,
        schema is None ==> database::schema_of(schema) == "public"@,
{
}

/// The columns of a table are asked for by its schema in PostgreSQL, and by its
/// database in MySQL.
pub proof fn columns_are_asked_for(request: GetSchemaRequest)
    ensures
        request.connection.db_type is Postgres ==> database::schema_sql_spec(request)
            == "SELECT column_name, data_type, is_nullable, column_default FROM information_schema.columns WHERE table_schema = '"@
            + (if request.schema is Some {
            request.schema->0@
        } else {
            "public"@
        }) + "' AND table_name = '"@ + request.table@ + "'"@,
        request.connection.db_type is Mysql ==> database::schema_sql_spec(request)
            == "SELECT COLUMN_NAME, DATA_TYPE, IS_NULLABLE, COLUMN_DEFAULT FROM information_schema.columns WHERE table_schema = '"@
            + request.connection.database@ + "' AND table_name = '"@ + request.table@ + "'"@,
{
}

/// A line of the list of tables is a table exactly where it is not empty, no
/// rule and no heading.
pub proof fn line_names_a_table(line: Seq<char>)
    ensures
        ({
            let plain = line.len() > 0 && !search::has_prefix(line, "-"@)
                && !search::has_substring(line, "table_name"@);
            &&& plain ==> database::table_of(line) == Some(split::trim_spec(line))
            &&& !plain ==> database::table_of(line) is None
        }),
{
}

/// The cells of a line stand between its bars, without white space around them.
pub proof fn cells_stand_between_bars(line: Seq<char>, i: int)
    ensures
        database::cells_of(line).len() == split::split_spec(line, '|').len(),
        0 <= i < database::cells_of(line).len() ==> database::cells_of(line)[i]
            == split::trim_spec(split::split_spec(line, '|')[i]),
{
}

/// A line describes a column exactly where it is not empty, no rule and no
/// heading, and has four cells: the name, the type, whether it may be null, and
/// its default, which there is none of where the cell is empty or NULL.
pub proof fn line_describes_a_column(line: Seq<char>)
    ensures
        ({
            let c = database::cells_of(line);
            let plain = line.len() > 0 && !search::has_prefix(line, "-"@)
                && !search::has_substring(line, "column_name"@) && c.len() >= 4;
            let column = database::column_of(line);
            &&& column is Some <==> plain
            &&& plain ==> column->0.name == c[0] && column->0.data_type == c[1]
                && !column->0.is_primary_key
            &&& plain ==> (column->0.is_nullable <==> c[2] == "YES"@)
            &&& plain ==> (column->0.default_value is None <==> c[3].len() == 0 || c[3] == "NULL"@)
            &&& plain && column->0.default_value is Some ==> column->0.default_value == Some(c[3])
        }),
{
}

/// A line of a result is a row exactly where it is not empty, does not tell the
/// number of rows and has as many cells as there are columns. A cell that is
/// empty or NULL has no value.
pub proof fn line_is_a_row(line: Seq<char>, width: int, i: int)
    ensures
        ({
            let c = database::cells_of(line);
            let row = database::row_of(line, width);
            &&& row is Some <==> line.len() > 0 && !search::has_prefix(line, "("@) && c.len()
                == width
            &&& row is Some ==> row->0.len() == width
            &&& row is Some && 0 <= i < width && (c[i].len() == 0 || c[i] == "NULL"@)
                ==> row->0[i] is None
            &&& row is Some && 0 <= i < width && c[i].len() > 0 && c[i] != "NULL"@ ==> row->0[i]
                == Some(c[i])
        }),
{
}

/// The first line of a result names its columns, the second is a rule, and the
/// rows follow.
pub proof fn rows_follow_the_heading(
    output: Seq<char>,
    head: Seq<char>,
    rule: Seq<char>,
    rest: Seq<Seq<char>>,
)
    requires
        split::lines_spec(output) == seq![head, rule] + rest,
    ensures
        database::result_columns(output) == database::cells_of(head),
        database::result_rows(output) == collections::keep_some(
            rest.map_values(
                |l: Seq<char>| database::row_of(l, database::cells_of(head).len() as int),
            ),
        ),
{
    let all = split::lines_spec(output);
    assert(all[0] == head);
    assert(all.subrange(2, all.len() as int) =~= rest);
    let width = database::cells_of(head).len() as int;
    let f = |l: Seq<char>| database::row_of(l, width);
    if rest.len() == 0 {
        assert(rest.map_values(
            |l: Seq<char>| database::row_of(l, database::cells_of(head).len() as int),
        ).len() == 0);
        assert(database::result_rows(output) =~= collections::keep_some(
            rest.map_values(
                |l: Seq<char>| database::row_of(l, database::cells_of(head).len() as int),
            ),
        ));
    } else {
        assert(rest.map_values(f) =~= rest.map_values(
            |l: Seq<char>| database::row_of(l, database::cells_of(head).len() as int),
        ));
    }
}

/// The first rows up to the limit are given, and where as many are given as
/// were asked for, the answer says so.
pub proof fn rows_are_limited(rows: Seq<Seq<Option<Seq<char>>>>, max: usize, i: int, n: int)
    ensures
        database::wanted_rows(rows, max).len() <= max,
        rows.len() <= max ==> database::wanted_rows(rows, max) == rows,
        rows.len() > max ==> database::wanted_rows(rows, max).len() == max,
        0 <= i < database::wanted_rows(rows, max).len() ==> database::wanted_rows(rows, max)[i]
            == rows[i],
        database::row_warning(n, max) is Some <==> n >= max,
        n >= max ==> database::row_warning(n, max) == Some(
            "Results limited to "@ + number::decimal_spec(max as nat) + " rows"@,
        ),
{
}

/// The number of changed rows is the last word of the first line that reports a
/// change, and 0 where there is none or where it is no number.
pub proof fn first_report_counts(line: Seq<char>, rest: Seq<Seq<char>>)
    ensures
        ({
            let all = seq![line] + rest;
            let w = edit::words_spec(line);
            let reports = search::has_substring(line, "INSERT"@) || search::has_substring(
                line,
                "UPDATE"@,
            ) || search::has_substring(line, "DELETE"@);
            &&& database::affected_of(Seq::empty()) == 0
            &&& !reports ==> database::affected_of(all) == database::affected_of(rest)
            &&& reports && w.len() > 0 && number::parse_signed_spec(w.last()) is Some
                ==> database::affected_of(all) == number::parse_signed_spec(w.last())->0
            &&& reports && (w.len() == 0 || number::parse_signed_spec(w.last()) is None)
                ==> database::affected_of(all) == 0
        }),
{
    let all = seq![line] + rest;
    assert(all[0] == line);
    assert(all.subrange(1, all.len() as int) =~= rest);
}

/// A line of a table is a line of the export, with commas between its cells,
/// unless it is empty or a rule.
pub proof fn cells_are_exported(line: Seq<char>)
    ensures
        line.len() == 0 || search::has_prefix(line, "-"@) ==> database::csv_line(line) is None,
        line.len() > 0 && !search::has_prefix(line, "-"@) ==> database::csv_line(line) == Some(
            split::join_spec(database::cells_of(line), ","@),
        ),
        database::is_row(line) <==> line.len() > 0 && !search::has_prefix(line, "-"@)
            && !search::has_prefix(line, "("@),
{
}

/// The rows of a table are those behind its heading.
pub proof fn table_rows_are_counted(all: Seq<Seq<char>>, line: Seq<char>)
    requires
        all.len() > 0,
    ensures
        database::table_rows(Seq::empty()) == 0,
        database::table_rows(seq![line]) == 0,
        database::table_rows(all.push(line)) == database::table_rows(all) + (if line.len() > 0
            && !search::has_prefix(line, "-"@) && !search::has_prefix(line, "("@) {
            1int
        } else {
            0
        }),
{
    assert(all.push(line).drop_last() =~= all);
}

/// A table that is cut for the export keeps its first lines, holds no more rows
/// than were asked for, and one line more would be a row too many.
pub proof fn table_is_cut_at_the_limit(all: Seq<Seq<char>>, max: usize)
    ensures
        ({
            let kept = database::wanted_lines(all, max);
            &&& kept.len() <= all.len()
            &&& kept == all.take(kept.len() as int)
            &&& database::table_rows(kept) <= max
            &&& kept.len() < all.len() ==> database::table_rows(all.take(kept.len() as int + 1))
                > max
        }),
    decreases all.len(),
{
    if database::table_rows(all) > max {
        let less = all.drop_last();
        table_is_cut_at_the_limit(less, max);
        let kept = database::wanted_lines(less, max);
        assert(kept =~= all.take(kept.len() as int));
        if kept.len() < less.len() {
            assert(less.take(kept.len() as int + 1) =~= all.take(kept.len() as int + 1));
        } else {
            assert(all.take(kept.len() as int + 1) =~= all);
        }
    } else {
        assert(all =~= all.take(all.len() as int));
    }
}

/// A table is cut exactly where it has more rows than were asked for, and then
/// the export counts the rows that were asked for. Each format has its text: the
/// cells with commas and one line less for the heading, the table as it is, or
/// the table behind a comment.
pub proof fn export_has_its_format(request: DbExportRequest, output: Seq<char>)
    ensures
        ({
            let all = split::lines_spec(output);
            let cut = database::table_rows(all) > request.max_rows;
            let table = if cut {
                split::join_spec(database::wanted_lines(all, request.max_rows), "\n"@)
            } else {
                output
            };
            let (text, count) = database::export_spec(request, output);
            &&& cut ==> count == request.max_rows
            &&& request.format is Json ==> text == table && (!cut ==> count == all.len())
            &&& request.format is Sql ==> text == "-- SQL export for "@ + request.source@ + "\n"@
                + table && (!cut ==> count == all.len())
            &&& request.format is Csv ==> text == database::csv_of(table) && (!cut ==> count
                == split::lines_spec(text).len() - (if split::lines_spec(text).len() > 0 {
                1int
            } else {
                0
            }))
        }),
{
}

} // verus!
