//! Table-level operations.
use vstd::prelude::*;

verus! {

/// `<schema>.<table>`
pub open spec fn qualified(schema: Seq<char>, table: Seq<char>) -> Seq<char> {
    schema + "."@ + table
}

/// `CREATE TABLE <schema>.<table> (<columns>)`
pub open spec fn create_table_sql(schema: Seq<char>, table: Seq<char>, columns: Seq<char>) -> Seq<char> {
    "CREATE TABLE "@ + qualified(schema, table) + " ("@ + columns + ")"@
}

/// `DROP TABLE IF EXISTS <schema>.<table> CASCADE`
pub open spec fn drop_table_sql(schema: Seq<char>, table: Seq<char>) -> Seq<char> {
    "DROP TABLE IF EXISTS "@ + qualified(schema, table) + " CASCADE"@
}

/// Appends `<schema>.<table>` to `sql`.
pub fn append_qualified(sql: &mut String, schema: &str, table: &str)
    ensures
        final(sql)@ == old(sql)@ + qualified(schema@, table@),
{
    sql.append(schema);
    sql.append(".");
    sql.append(table);
}

/// The statement that creates `schema.table` with the given column
/// definitions.
pub fn create_table_statement(schema_name: &str, table_name: &str, columns: &str) -> (sql: String)
    ensures
        sql@ == create_table_sql(schema_name@, table_name@, columns@),
{
    let mut sql = String::from_str("CREATE TABLE ");
    append_qualified(&mut sql, schema_name, table_name);
    sql.append(" (");
    sql.append(columns);
    sql.append(")");
    sql
}

/// The statement that drops `schema.table`, with what depends on it.
pub fn drop_table_statement(schema_name: &str, table_name: &str) -> (sql: String)
    ensures
        sql@ == drop_table_sql(schema_name@, table_name@),
{
    let mut sql = String::from_str("DROP TABLE IF EXISTS ");
    append_qualified(&mut sql, schema_name, table_name);
    sql.append(" CASCADE");
    sql
}

/// The statements that drop every listed table of the schema, one per
/// table, in order.
pub fn drop_all_tables_statements(schema_name: &str, table_names: &Vec<String>) -> (stmts: Vec<String>)
    ensures
        stmts@.len() == table_names@.len(),
        forall|i: int| 0 <= i < table_names@.len()
            ==> (#[trigger] stmts@[i])@ == drop_table_sql(schema_name@, table_names@[i]@),
{
    let mut stmts: Vec<String> = Vec::new();
    let mut i: usize = 0;
    while i < table_names.len()
        invariant
            i <= table_names@.len(),
            stmts@.len() == i,
            forall|j: int| 0 <= j < i
                ==> (#[trigger] stmts@[j])@ == drop_table_sql(schema_name@, table_names@[j]@),
        decreases table_names.len() - i,
    {
        stmts.push(drop_table_statement(schema_name, table_names[i].as_str()));
        i = i + 1;
    }
    stmts
}

} // verus!
