//! Schema-level operations.
use vstd::prelude::*;
use crate::guard::{OpError, is_reserved, reserved_databases};

verus! {

/// `CREATE SCHEMA <name>`
pub open spec fn create_schema_sql(name: Seq<char>) -> Seq<char> {
    "CREATE SCHEMA "@ + name
}

/// `DROP SCHEMA IF EXISTS $1 CASCADE`, the schema's name bound as `$1`.
pub open spec fn drop_schema_sql() -> Seq<char> {
    "DROP SCHEMA IF EXISTS $1 CASCADE"@
}

/// The statement that drops the schema bound as its first parameter, with
/// everything inside it.
pub fn drop_schema_statement() -> (sql: String)
    ensures
        sql@ == drop_schema_sql(),
{
    String::from_str("DROP SCHEMA IF EXISTS $1 CASCADE")
}

/// Creating schema `schema_name` while connected to `current`: refused when
/// the current database is reserved, else the creation statement.
pub fn create_schema_plan(schema_name: &str, current: &str) -> (plan: Result<String, OpError>)
    ensures
        plan is Ok <==> !reserved_databases().contains(current@),
        plan matches Ok(sql) ==> sql@ == create_schema_sql(schema_name@),
        plan matches Err(e) ==> e is Protocol && e.text() == "Cannot create schema in system database"@,
{
    if is_reserved(current) {
        return Err(OpError::protocol("Cannot create schema in system database"));
    }
    let mut sql = String::from_str("CREATE SCHEMA ");
    sql.append(schema_name);
    Ok(sql)
}

} // verus!
