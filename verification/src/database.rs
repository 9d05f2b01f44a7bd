//! Database-level operations: the SQL text they send, which databases they
//! refuse to touch, and how catalogue rows become listings.
use vstd::prelude::*;
use crate::guard::{
    OpError, is_reserved, is_undroppable, reserved_databases, reserved_names,
    undroppable_databases, undroppable_names,
};
use crate::text::{names_contain, views};

verus! {

/// One row of the database catalogue, as the listing query returns it.
pub struct DatabaseRow {
    pub name: String,
    pub size: Option<String>,
    pub owner: String,
    pub collation: String,
    pub ctype: String,
    pub allow_connections: bool,
    pub connection_limit: i32,
    pub is_template: bool,
}

/// The items whose key is not one of `excluded`, in their order.
pub open spec fn kept_by_key<T>(items: Seq<T>, key: spec_fn(T) -> Seq<char>, excluded: Seq<Seq<char>>) -> Seq<T>
    decreases items.len(),
{
    if items.len() == 0 {
        Seq::empty()
    } else {
        let kept = kept_by_key(items.drop_last(), key, excluded);
        if excluded.contains(key(items.last())) {
            kept
        } else {
            kept.push(items.last())
        }
    }
}

/// The key of a catalogue row: its database name.
pub open spec fn row_name(r: DatabaseRow) -> Seq<char> {
    r.name@
}

/// A name is its own key.
pub open spec fn name_itself(n: Seq<char>) -> Seq<char> {
    n
}

/// The rows whose database name is not one of `excluded`, in their order.
pub open spec fn rows_without(rows: Seq<DatabaseRow>, excluded: Seq<Seq<char>>) -> Seq<DatabaseRow> {
    kept_by_key(rows, |r: DatabaseRow| row_name(r), excluded)
}

/// The names that are not one of `excluded`, in their order.
pub open spec fn names_without(names: Seq<Seq<char>>, excluded: Seq<Seq<char>>) -> Seq<Seq<char>> {
    kept_by_key(names, |n: Seq<char>| name_itself(n), excluded)
}

/// The strings of the `Some` entries, in their order.
pub open spec fn present(entries: Seq<Option<String>>) -> Seq<Seq<char>>
    decreases entries.len(),
{
    if entries.len() == 0 {
        Seq::empty()
    } else {
        let kept = present(entries.drop_last());
        match entries.last() {
            Some(s) => kept.push(s@),
            None => kept,
        }
    }
}

/// Keeps the rows whose database is not named in `excluded`.
pub fn rows_excluding(rows: Vec<DatabaseRow>, excluded: &Vec<String>) -> (kept: Vec<DatabaseRow>)
    ensures
        kept@ == rows_without(rows@, views(excluded@)),
{
    let ghost all = rows@;
    let mut kept: Vec<DatabaseRow> = Vec::new();
    for row in it: rows.into_iter()
        invariant
            it.seq() == all,
            kept@ == rows_without(all.take(it.index() as int), views(excluded@)),
    {
        let ghost i = it.index();
        assert(all.take(i + 1).drop_last() =~= all.take(i as int));
        if !names_contain(excluded, row.name.as_str()) {
            kept.push(row);
        }
    }
    assert(all.take(all.len() as int) =~= all);
    kept
}

/// The listing of user databases: every catalogue row except those of the
/// reserved databases, in catalogue order.
pub fn listed_databases(rows: Vec<DatabaseRow>) -> (listed: Vec<DatabaseRow>)
    ensures
        listed@ == rows_without(rows@, reserved_databases()),
{
    rows_excluding(rows, &reserved_names())
}

/// The listing that includes system databases: it hides nothing.
pub fn listed_system_databases(rows: Vec<DatabaseRow>) -> (listed: Vec<DatabaseRow>)
    ensures
        listed@ == rows_without(rows@, Seq::empty()),
{
    let none: Vec<String> = Vec::new();
    assert(views(none@) =~= Seq::<Seq<char>>::empty());
    rows_excluding(rows, &none)
}

/// The databases that dropping all databases drops: every catalogued name
/// except the undroppable ones, in catalogue order.
pub fn databases_to_drop(names: Vec<String>) -> (doomed: Vec<String>)
    ensures
        views(doomed@) == names_without(views(names@), undroppable_databases()),
{
    let ghost all = names@;
    let keep = undroppable_names();
    let mut doomed: Vec<String> = Vec::new();
    for name in it: names.into_iter()
        invariant
            it.seq() == all,
            views(keep@) == undroppable_databases(),
            views(doomed@) == names_without(views(all.take(it.index() as int)), undroppable_databases()),
    {
        let ghost i = it.index();
        assert(views(all.take(i + 1)).drop_last() =~= views(all.take(i as int)));
        assert(views(all.take(i + 1)).last() == name@);
        if !names_contain(&keep, name.as_str()) {
            doomed.push(name);
            assert(views(doomed@) =~= views(doomed@).drop_last().push(name@));
        }
    }
    assert(all.take(all.len() as int) =~= all);
    doomed
}

/// The names of the `Some` entries, in order: the tables that a database
/// lookup reports.
pub fn table_names(entries: Vec<Option<String>>) -> (names: Vec<String>)
    ensures
        views(names@) == present(entries@),
{
    let ghost all = entries@;
    let mut names: Vec<String> = Vec::new();
    for entry in it: entries.into_iter()
        invariant
            it.seq() == all,
            views(names@) == present(all.take(it.index() as int)),
    {
        let ghost i = it.index();
        assert(all.take(i + 1).drop_last() =~= all.take(i as int));
        match entry {
            Some(s) => {
                names.push(s);
                assert(views(names@) =~= views(names@).drop_last().push(names@.last()@));
            },
            None => {},
        }
    }
    assert(all.take(all.len() as int) =~= all);
    names
}

/// `CREATE DATABASE <name>;`, followed, where a password is given, by the
/// ownership clause and the creation of a user of the same name.
pub open spec fn create_database_sql(name: Seq<char>, password: Option<Seq<char>>) -> Seq<char> {
    let base = "CREATE DATABASE "@ + name + ";"@;
    match password {
        None => base,
        Some(p) => base
            + " WITH OWNER = postgres ENCODING = 'UTF8' CONNECTION LIMIT = -1 TEMPLATE = template0;"@
            + " CREATE USER "@ + name + " WITH PASSWORD '"@ + p + "';"@,
    }
}

/// `DROP DATABASE IF EXISTS <name>; `
pub open spec fn drop_database_sql(name: Seq<char>) -> Seq<char> {
    "DROP DATABASE IF EXISTS "@ + name + "; "@
}

/// `ALTER DATABASE <old> RENAME TO <new>`
pub open spec fn rename_database_sql(old: Seq<char>, new: Seq<char>) -> Seq<char> {
    "ALTER DATABASE "@ + old + " RENAME TO "@ + new
}

/// `ALTER DATABASE <name> OWNER TO <owner>`
pub open spec fn set_owner_sql(name: Seq<char>, owner: Seq<char>) -> Seq<char> {
    "ALTER DATABASE "@ + name + " OWNER TO "@ + owner
}

/// `REVOKE <privileges> ON DATABASE <name> FROM <user>`
pub open spec fn revoke_sql(name: Seq<char>, user: Seq<char>, privileges: Seq<char>) -> Seq<char> {
    "REVOKE "@ + privileges + " ON DATABASE "@ + name + " FROM "@ + user
}

/// Whether an operation on `name` must be refused: `name` is reserved or is
/// the database the connection is using.
pub open spec fn untouchable(name: Seq<char>, current: Seq<char>) -> bool {
    reserved_databases().contains(name) || name == current
}

/// The statement that creates database `db_name`, with an owning user of the
/// same name when a password is given.
pub fn create_database_statement(db_name: &str, password: Option<&str>) -> (sql: String)
    ensures
        sql@ == create_database_sql(db_name@, match password { Some(p) => Some(p@), None => None }),
{
    let mut sql = String::from_str("CREATE DATABASE ");
    sql.append(db_name);
    sql.append(";");
    match password {
        Some(pass) => {
            sql.append(" WITH OWNER = postgres ENCODING = 'UTF8' CONNECTION LIMIT = -1 TEMPLATE = template0;");
            sql.append(" CREATE USER ");
            sql.append(db_name);
            sql.append(" WITH PASSWORD '");
            sql.append(pass);
            sql.append("';");
        },
        None => {},
    }
    sql
}

/// The statement that drops database `name` if it exists.
pub fn drop_database_statement(name: &str) -> (sql: String)
    ensures
        sql@ == drop_database_sql(name@),
{
    let mut sql = String::from_str("DROP DATABASE IF EXISTS ");
    sql.append(name);
    sql.append("; ");
    sql
}

/// What dropping database `name` sends: nothing for an undroppable database,
/// else the drop statement.
pub fn drop_database_plan(name: &str) -> (plan: Option<String>)
    ensures
        plan is None <==> undroppable_databases().contains(name@),
        plan matches Some(sql) ==> sql@ == drop_database_sql(name@),
{
    if is_undroppable(name) {
        None
    } else {
        Some(drop_database_statement(name))
    }
}

/// Whether looking database `name` up is allowed: reserved databases are
/// never reported.
pub fn database_lookup_allowed(name: &str) -> (allowed: bool)
    ensures
        allowed == !reserved_databases().contains(name@),
{
    !is_reserved(name)
}

/// Renaming `old_name` to `new_name` while connected to `current`: refused
/// when the new name is reserved, then when the old name is reserved or the
/// current database; else the rename statement.
pub fn rename_database_plan(old_name: &str, new_name: &str, current: &str) -> (plan: Result<String, OpError>)
    ensures
        plan is Ok <==> !reserved_databases().contains(new_name@) && !untouchable(old_name@, current@),
        plan matches Ok(sql) ==> sql@ == rename_database_sql(old_name@, new_name@),
        plan matches Err(e) ==> e is ColumnNotFound,
        plan matches Err(e) ==> e.text() == if reserved_databases().contains(new_name@) {
            "New name conflicts with a system database"@
        } else {
            "Cannot rename system or current database"@
        },
{
    if is_reserved(new_name) {
        return Err(OpError::column_not_found("New name conflicts with a system database"));
    }
    let cur = current.to_owned();
    let old = old_name.to_owned();
    if is_reserved(old_name) || old == cur {
        return Err(OpError::column_not_found("Cannot rename system or current database"));
    }
    let mut sql = String::from_str("ALTER DATABASE ");
    sql.append(old_name);
    sql.append(" RENAME TO ");
    sql.append(new_name);
    Ok(sql)
}

/// Giving database `db_name` to `new_owner` while connected to `current`:
/// refused for a reserved or the current database, else the statement.
pub fn set_database_owner_plan(db_name: &str, new_owner: &str, current: &str) -> (plan: Result<String, OpError>)
    ensures
        plan is Ok <==> !untouchable(db_name@, current@),
        plan matches Ok(sql) ==> sql@ == set_owner_sql(db_name@, new_owner@),
        plan matches Err(e) ==> e is ColumnNotFound
            && e.text() == "Cannot change owner of system or current database"@,
{
    let cur = current.to_owned();
    let db = db_name.to_owned();
    if is_reserved(db_name) || db == cur {
        return Err(OpError::column_not_found("Cannot change owner of system or current database"));
    }
    let mut sql = String::from_str("ALTER DATABASE ");
    sql.append(db_name);
    sql.append(" OWNER TO ");
    sql.append(new_owner);
    Ok(sql)
}

/// Revoking `privileges` on `db_name` from `username` while connected to
/// `current`: refused for a reserved or the current database, else the
/// statement.
pub fn revoke_privileges_plan(db_name: &str, username: &str, privileges: &str, current: &str) -> (plan: Result<String, OpError>)
    ensures
        plan is Ok <==> !untouchable(db_name@, current@),
        plan matches Ok(sql) ==> sql@ == revoke_sql(db_name@, username@, privileges@),
        plan matches Err(e) ==> e is ColumnNotFound
            && e.text() == "Cannot revoke privileges on system or current database"@,
{
    let cur = current.to_owned();
    let db = db_name.to_owned();
    if is_reserved(db_name) || db == cur {
        return Err(OpError::column_not_found("Cannot revoke privileges on system or current database"));
    }
    let mut sql = String::from_str("REVOKE ");
    sql.append(privileges);
    sql.append(" ON DATABASE ");
    sql.append(db_name);
    sql.append(" FROM ");
    sql.append(username);
    Ok(sql)
}

/// Whether the privileges on `db_name` may be listed: never on a reserved
/// database.
pub fn privilege_listing_check(db_name: &str) -> (check: Result<(), OpError>)
    ensures
        check is Ok <==> !reserved_databases().contains(db_name@),
        check matches Err(e) ==> e is ColumnNotFound && e.text() == "Cannot list priviledges on system"@,
{
    if is_reserved(db_name) {
        Err(OpError::column_not_found("Cannot list priviledges on system"))
    } else {
        Ok(())
    }
}

/// The grantee, schema and privilege of each grant row, all of which the
/// catalogue fills in.
pub open spec fn grant_complete(row: (Option<String>, Option<String>, Option<String>)) -> bool {
    row.0 is Some && row.1 is Some && row.2 is Some
}

/// Turns complete grant rows into (grantee, schema, privilege) triples, in
/// order.
pub fn privileges_from_rows(rows: Vec<(Option<String>, Option<String>, Option<String>)>) -> (grants: Vec<(String, String, String)>)
    requires
        forall|i: int| 0 <= i < rows@.len() ==> grant_complete(#[trigger] rows@[i]),
    ensures
        grants@.len() == rows@.len(),
        forall|i: int| 0 <= i < rows@.len() ==> {
            &&& Some(#[trigger] grants@[i].0) == rows@[i].0
            &&& Some(grants@[i].1) == rows@[i].1
            &&& Some(grants@[i].2) == rows@[i].2
        },
{
    let ghost all = rows@;
    let mut grants: Vec<(String, String, String)> = Vec::new();
    for row in it: rows.into_iter()
        invariant
            it.seq() == all,
            forall|i: int| 0 <= i < all.len() ==> grant_complete(#[trigger] all[i]),
            grants@.len() == it.index(),
            forall|i: int| 0 <= i < it.index() ==> {
                &&& Some(#[trigger] grants@[i].0) == all[i].0
                &&& Some(grants@[i].1) == all[i].1
                &&& Some(grants@[i].2) == all[i].2
            },
    {
        let ghost i = it.index();
        assert(grant_complete(all[i as int]));
        let (grantee, schema, privilege) = row;
        grants.push((grantee.unwrap(), schema.unwrap(), privilege.unwrap()));
    }
    grants
}

} // verus!
