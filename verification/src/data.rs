//! Row-level operations on a table: the statements that insert, select and
//! delete rows.
use vstd::prelude::*;
use crate::table::{append_qualified, qualified};
use crate::text::{decimal, decimal_string, join_strings, joined, views};

verus! {

/// The positional parameters `$1`, ..., `$n`.
pub open spec fn placeholders(n: nat) -> Seq<Seq<char>> {
    Seq::new(n, |i: int| "$"@ + decimal((i + 1) as nat))
}

/// `INSERT INTO <schema>.<table> (<c1>, ..., <cn>) VALUES ($1, ..., $n)`
pub open spec fn insert_sql(schema: Seq<char>, table: Seq<char>, columns: Seq<Seq<char>>) -> Seq<char> {
    "INSERT INTO "@ + qualified(schema, table) + " ("@ + joined(columns, ", "@) + ") VALUES ("@
        + joined(placeholders(columns.len()), ", "@) + ")"@
}

/// `SELECT * FROM <schema>.<table>`
pub open spec fn select_all_sql(schema: Seq<char>, table: Seq<char>) -> Seq<char> {
    "SELECT * FROM "@ + qualified(schema, table)
}

/// `SELECT * FROM <schema>.<table> WHERE <id> = $1`
pub open spec fn select_by_id_sql(schema: Seq<char>, table: Seq<char>, id: Seq<char>) -> Seq<char> {
    "SELECT * FROM "@ + qualified(schema, table) + " WHERE "@ + id + " = $1"@
}

/// `DELETE FROM <schema>.<table> WHERE <id> = $1`
pub open spec fn delete_by_id_sql(schema: Seq<char>, table: Seq<char>, id: Seq<char>) -> Seq<char> {
    "DELETE FROM "@ + qualified(schema, table) + " WHERE "@ + id + " = $1"@
}

/// `DELETE FROM <schema>.<table>`
pub open spec fn delete_all_sql(schema: Seq<char>, table: Seq<char>) -> Seq<char> {
    "DELETE FROM "@ + qualified(schema, table)
}

/// The parameters `$1` to `$n`, in order.
pub fn placeholder_list(n: usize) -> (params: Vec<String>)
    ensures
        views(params@) == placeholders(n as nat),
{
    let mut params: Vec<String> = Vec::new();
    let mut i: usize = 0;
    while i < n
        invariant
            i <= n,
            views(params@) == placeholders(i as nat),
        decreases n - i,
    {
        let mut p = String::from_str("$");
        let digits = decimal_string(i + 1);
        p.append(digits.as_str());
        assert(p@ == "$"@ + decimal((i + 1) as nat));
        let ghost before = views(params@);
        params.push(p);
        assert(views(params@) =~= before.push("$"@ + decimal((i + 1) as nat)));
        assert(views(params@) =~= placeholders((i + 1) as nat));
        i = i + 1;
    }
    params
}

/// The statement that inserts one row into `schema.table`, naming the
/// columns in the given order and taking their values as parameters
/// `$1`, ..., `$n` in the same order.
pub fn insert_statement(schema_name: &str, table_name: &str, columns: &Vec<String>) -> (sql: String)
    ensures
        sql@ == insert_sql(schema_name@, table_name@, views(columns@)),
{
    let mut sql = String::from_str("INSERT INTO ");
    append_qualified(&mut sql, schema_name, table_name);
    sql.append(" (");
    let names = join_strings(columns, ", ");
    sql.append(names.as_str());
    sql.append(") VALUES (");
    let params = placeholder_list(columns.len());
    let marks = join_strings(&params, ", ");
    sql.append(marks.as_str());
    sql.append(")");
    sql
}

/// The statement that reads every row of `schema.table`.
pub fn select_all_statement(schema_name: &str, table_name: &str) -> (sql: String)
    ensures
        sql@ == select_all_sql(schema_name@, table_name@),
{
    let mut sql = String::from_str("SELECT * FROM ");
    append_qualified(&mut sql, schema_name, table_name);
    sql
}

/// The statement that reads the rows of `schema.table` whose `id_column`
/// equals parameter `$1`.
pub fn select_by_id_statement(schema_name: &str, table_name: &str, id_column: &str) -> (sql: String)
    ensures
        sql@ == select_by_id_sql(schema_name@, table_name@, id_column@),
{
    let mut sql = String::from_str("SELECT * FROM ");
    append_qualified(&mut sql, schema_name, table_name);
    sql.append(" WHERE ");
    sql.append(id_column);
    sql.append(" = $1");
    sql
}

/// The statement that deletes the rows of `schema.table` whose `id_column`
/// equals parameter `$1`.
pub fn delete_by_id_statement(schema_name: &str, table_name: &str, id_column: &str) -> (sql: String)
    ensures
        sql@ == delete_by_id_sql(schema_name@, table_name@, id_column@),
{
    let mut sql = String::from_str("DELETE FROM ");
    append_qualified(&mut sql, schema_name, table_name);
    sql.append(" WHERE ");
    sql.append(id_column);
    sql.append(" = $1");
    sql
}

/// The statement that deletes every row of `schema.table`.
pub fn delete_all_statement(schema_name: &str, table_name: &str) -> (sql: String)
    ensures
        sql@ == delete_all_sql(schema_name@, table_name@),
{
    let mut sql = String::from_str("DELETE FROM ");
    append_qualified(&mut sql, schema_name, table_name);
    sql
}

} // verus!
