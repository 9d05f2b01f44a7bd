//! What the statements say, stated by where each input stands in them and
//! by how the statements of related operations relate.
use vstd::prelude::*;
use crate::data::{delete_all_sql, delete_by_id_sql, insert_sql, placeholders, select_all_sql, select_by_id_sql};
use crate::database::{create_database_sql, drop_database_sql, rename_database_sql, revoke_sql, set_owner_sql};
use crate::schema::create_schema_sql;
use crate::table::{create_table_sql, drop_table_sql, qualified};
use crate::guard::{reserved_databases, undroppable_databases};
use crate::qr::{min_dimension, module_pixels, rendered_side};
use crate::text::{decimal, digit_char, joined};

verus! {

/// `s` begins with `p`.
pub open spec fn starts_with(s: Seq<char>, p: Seq<char>) -> bool {
    p.len() <= s.len() && s.take(p.len() as int) == p
}

/// `s` ends with `p`.
pub open spec fn ends_with(s: Seq<char>, p: Seq<char>) -> bool {
    p.len() <= s.len() && s.skip(s.len() - p.len()) == p
}

/// How many times `c` occurs in `s`.
pub open spec fn occurrences(s: Seq<char>, c: char) -> nat
    decreases s.len(),
{
    if s.len() == 0 {
        0
    } else {
        occurrences(s.drop_last(), c) + if s.last() == c { 1nat } else { 0nat }
    }
}

/// The number that a string of decimal digits denotes.
pub open spec fn digits_value(s: Seq<char>) -> int
    decreases s.len(),
{
    if s.len() == 0 {
        0
    } else {
        10 * digits_value(s.drop_last()) + (s.last() as int - '0' as int)
    }
}

proof fn starts_and_ends(a: Seq<char>, b: Seq<char>)
    ensures
        starts_with(a + b, a),
        ends_with(a + b, b),
{
    assert((a + b).take(a.len() as int) =~= a);
    assert((a + b).skip((a + b).len() - b.len()) =~= b);
}

/// A rename statement names the database to rename right after
/// `ALTER DATABASE ` and its new name after ` RENAME TO `, and holds nothing
/// else: the two names are never swapped or dropped, whatever they are.
pub proof fn law_rename_puts_each_name_in_its_place(old: Seq<char>, new: Seq<char>)
    ensures
        starts_with(rename_database_sql(old, new), "ALTER DATABASE "@ + old),
        ends_with(rename_database_sql(old, new), " RENAME TO "@ + new),
        rename_database_sql(old, new).len() == "ALTER DATABASE "@.len() + old.len() + " RENAME TO "@.len() + new.len(),
{
    let a = "ALTER DATABASE "@ + old;
    let b = " RENAME TO "@ + new;
    assert(rename_database_sql(old, new) =~= a + b);
    starts_and_ends(a, b);
}

/// Renaming a database and giving it a new owner address the same
/// database: both statements begin `ALTER DATABASE <name>`.
pub proof fn law_alterations_address_the_named_database(name: Seq<char>, new: Seq<char>, owner: Seq<char>)
    ensures
        rename_database_sql(name, new).take(("ALTER DATABASE "@ + name).len() as int)
            == set_owner_sql(name, owner).take(("ALTER DATABASE "@ + name).len() as int),
{
    law_rename_puts_each_name_in_its_place(name, new);
    let a = "ALTER DATABASE "@ + name;
    assert(set_owner_sql(name, owner) =~= a + (" OWNER TO "@ + owner));
    starts_and_ends(a, " OWNER TO "@ + owner);
}

/// Creating a database with a password sends what creating it without one
/// sends, followed by the creation of a user of the database's name with
/// that password; without one it creates the database alone.
pub proof fn law_password_creates_the_user(name: Seq<char>, password: Seq<char>)
    ensures
        starts_with(create_database_sql(name, Some(password)), create_database_sql(name, None)),
        ends_with(create_database_sql(name, Some(password)),
            " CREATE USER "@ + name + " WITH PASSWORD '"@ + password + "';"@),
        starts_with(create_database_sql(name, None), "CREATE DATABASE "@ + name),
        ends_with(create_database_sql(name, None), name + ";"@),
{
    let base = "CREATE DATABASE "@ + name + ";"@;
    let owner = " WITH OWNER = postgres ENCODING = 'UTF8' CONNECTION LIMIT = -1 TEMPLATE = template0;"@;
    let user = " CREATE USER "@ + name + " WITH PASSWORD '"@ + password + "';"@;
    assert(create_database_sql(name, Some(password)) =~= base + (owner + user));
    starts_and_ends(base, owner + user);
    assert(create_database_sql(name, Some(password)) =~= (base + owner) + user);
    starts_and_ends(base + owner, user);
    assert(base =~= ("CREATE DATABASE "@ + name) + ";"@);
    starts_and_ends("CREATE DATABASE "@ + name, ";"@);
    assert(base =~= "CREATE DATABASE "@ + (name + ";"@));
    starts_and_ends("CREATE DATABASE "@, name + ";"@);
}

/// Deleting or reading by id is deleting or reading the whole table,
/// restricted by ` WHERE <id column> = $1`: the restriction is never left
/// out, whatever the column's name.
pub proof fn law_by_id_statements_restrict_to_the_id(schema: Seq<char>, table: Seq<char>, id: Seq<char>)
    ensures
        delete_by_id_sql(schema, table, id) == delete_all_sql(schema, table) + " WHERE "@ + id + " = $1"@,
        select_by_id_sql(schema, table, id) == select_all_sql(schema, table) + " WHERE "@ + id + " = $1"@,
        ends_with(delete_by_id_sql(schema, table, id), " WHERE "@ + id + " = $1"@),
        delete_by_id_sql(schema, table, id).skip(delete_all_sql(schema, table).len() as int)
            == select_by_id_sql(schema, table, id).skip(select_all_sql(schema, table).len() as int),
{
    let w = " WHERE "@ + id + " = $1"@;
    assert(delete_by_id_sql(schema, table, id) =~= delete_all_sql(schema, table) + w);
    assert(select_by_id_sql(schema, table, id) =~= select_all_sql(schema, table) + w);
    starts_and_ends(delete_all_sql(schema, table), w);
    assert((delete_all_sql(schema, table) + w).skip(delete_all_sql(schema, table).len() as int) =~= w);
    assert((select_all_sql(schema, table) + w).skip(select_all_sql(schema, table).len() as int) =~= w);
}

/// The insert statement lists the columns in order and, in the same order,
/// one parameter per column: `$1` for the first, up to `$n` for the n-th.
pub proof fn law_insert_has_one_parameter_per_column(schema: Seq<char>, table: Seq<char>, columns: Seq<Seq<char>>)
    ensures
        ({
            let params = Seq::new(columns.len(), |i: int| "$"@ + decimal((i + 1) as nat));
            insert_sql(schema, table, columns) == "INSERT INTO "@ + schema + "."@ + table + " ("@
                + joined(columns, ", "@) + ") VALUES ("@ + joined(params, ", "@) + ")"@
        }),
{
    let params = Seq::new(columns.len(), |i: int| "$"@ + decimal((i + 1) as nat));
    assert(placeholders(columns.len()) =~= params);
    assert(insert_sql(schema, table, columns) =~= "INSERT INTO "@ + schema + "."@ + table + " ("@
        + joined(columns, ", "@) + ") VALUES ("@ + joined(params, ", "@) + ")"@);
}

proof fn occurrences_concat(a: Seq<char>, b: Seq<char>, c: char)
    ensures
        occurrences(a + b, c) == occurrences(a, c) + occurrences(b, c),
    decreases b.len(),
{
    if b.len() > 0 {
        occurrences_concat(a, b.drop_last(), c);
        assert((a + b).drop_last() =~= a + b.drop_last());
        assert((a + b).last() == b.last());
    }
}

proof fn occurrences_joined(parts: Seq<Seq<char>>, sep: Seq<char>, c: char, k: nat)
    requires
        occurrences(sep, c) == 0,
        forall|i: int| 0 <= i < parts.len() ==> occurrences(#[trigger] parts[i], c) == k,
    ensures
        occurrences(joined(parts, sep), c) == parts.len() * k,
    decreases parts.len(),
{
    if parts.len() == 1 {
        assert(occurrences(parts[0], c) == k);
    } else if parts.len() > 1 {
        let init = parts.drop_last();
        assert forall|i: int| 0 <= i < init.len() implies occurrences(#[trigger] init[i], c) == k by {
            assert(init[i] == parts[i]);
        }
        occurrences_joined(init, sep, c, k);
        occurrences_concat(joined(init, sep), sep, c);
        occurrences_concat(joined(init, sep) + sep, parts.last(), c);
        assert(occurrences(parts[parts.len() - 1], c) == k);
        assert(init.len() * k + k == parts.len() * k) by (nonlinear_arith)
            requires init.len() + 1 == parts.len();
    }
}

proof fn digit_is_digit(d: nat)
    requires
        d < 10,
    ensures
        '0' <= digit_char(d) <= '9',
        digit_char(d) as int - '0' as int == d,
{
}

/// Every character of a decimal rendering is a digit, the rendering of a
/// positive number does not start with 0, and the digits denote the number.
pub proof fn law_decimal_denotes_its_number(n: nat)
    ensures
        digits_value(decimal(n)) == n,
        forall|i: int| 0 <= i < decimal(n).len() ==> '0' <= #[trigger] decimal(n)[i] <= '9',
        n > 0 ==> decimal(n)[0] != '0',
        decimal(n).len() > 0,
    decreases n,
{
    if n < 10 {
        digit_is_digit(n);
        assert(decimal(n).drop_last() =~= Seq::<char>::empty());
        assert(digits_value(Seq::<char>::empty()) == 0);
        assert(decimal(n).last() == digit_char(n));
    } else {
        law_decimal_denotes_its_number(n / 10);
        digit_is_digit(n % 10);
        let head = decimal(n / 10);
        assert(decimal(n).drop_last() =~= head);
        assert(decimal(n).last() == digit_char(n % 10));
        assert(digits_value(decimal(n)) == 10 * digits_value(head) + (n % 10));
        assert(decimal(n)[0] == head[0]);
        assert forall|i: int| 0 <= i < decimal(n).len() implies '0' <= #[trigger] decimal(n)[i] <= '9' by {
            if i < head.len() {
                assert(decimal(n)[i] == head[i]);
            }
        }
    }
}

proof fn decimal_has_no_dollar(n: nat)
    ensures
        occurrences(decimal(n), '$') == 0,
    decreases n,
{
    digit_is_digit(n % 10);
    if n >= 10 {
        decimal_has_no_dollar(n / 10);
        assert(decimal(n).drop_last() =~= decimal(n / 10));
        assert(decimal(n).last() == digit_char(n % 10));
    } else {
        assert(decimal(n).drop_last() =~= Seq::<char>::empty());
        assert(occurrences(Seq::<char>::empty(), '$') == 0);
        assert(decimal(n).last() == digit_char(n));
    }
}

proof fn literal_dollars()
    ensures
        occurrences("INSERT INTO "@, '$') == 0,
        occurrences("."@, '$') == 0,
        occurrences(" ("@, '$') == 0,
        occurrences(", "@, '$') == 0,
        occurrences(") VALUES ("@, '$') == 0,
        occurrences(")"@, '$') == 0,
        occurrences("$"@, '$') == 1,
{
    reveal_strlit("INSERT INTO ");
    reveal_strlit(".");
    reveal_strlit(" (");
    reveal_strlit(", ");
    reveal_strlit(") VALUES (");
    reveal_strlit(")");
    reveal_strlit("$");
    reveal_with_fuel(occurrences, 13);
}

/// Where no name holds a `$`, the insert statement holds exactly one `$`
/// per column: one parameter for each value, never more or fewer.
pub proof fn law_insert_parameters_match_columns(schema: Seq<char>, table: Seq<char>, columns: Seq<Seq<char>>)
    requires
        occurrences(schema, '$') == 0,
        occurrences(table, '$') == 0,
        forall|i: int| 0 <= i < columns.len() ==> occurrences(#[trigger] columns[i], '$') == 0,
    ensures
        occurrences(insert_sql(schema, table, columns), '$') == columns.len(),
{
    literal_dollars();
    let params = placeholders(columns.len());
    assert forall|i: int| 0 <= i < params.len() implies occurrences(#[trigger] params[i], '$') == 1 by {
        decimal_has_no_dollar((i + 1) as nat);
        occurrences_concat("$"@, decimal((i + 1) as nat), '$');
    }
    occurrences_joined(columns, ", "@, '$', 0);
    occurrences_joined(params, ", "@, '$', 1);
    let cols = joined(columns, ", "@);
    let ps = joined(params, ", "@);
    let p1 = "INSERT INTO "@ + schema;
    let p2 = p1 + "."@;
    let p3 = p2 + table;
    let p4 = p3 + " ("@;
    let p5 = p4 + cols;
    let p6 = p5 + ") VALUES ("@;
    let p7 = p6 + ps;
    occurrences_concat("INSERT INTO "@, schema, '$');
    occurrences_concat(p1, "."@, '$');
    occurrences_concat(p2, table, '$');
    occurrences_concat(p3, " ("@, '$');
    occurrences_concat(p4, cols, '$');
    occurrences_concat(p5, ") VALUES ("@, '$');
    occurrences_concat(p6, ps, '$');
    occurrences_concat(p7, ")"@, '$');
    assert(insert_sql(schema, table, columns) =~= p7 + ")"@);
}

/// A size given as a non-negative number is passed on as that number, no
/// size as 200, and the rendered image is then at least that many pixels
/// wide, whatever the code.
pub proof fn law_requested_size_is_honoured(s: i32, side: int, quiet_zone: u32)
    requires
        s >= 0,
        side >= 1,
    ensures
        min_dimension(Some(s)) == s,
        min_dimension(None) == 200,
        rendered_side(side, quiet_zone, min_dimension(Some(s))) >= s,
{
    let d = min_dimension(Some(s));
    let w = side + 2 * quiet_zone;
    if d > 0 {
        let u = (d + w - 1) / w;
        assert(u == module_pixels(side, quiet_zone, d));
        assert(w * ((d + w - 1) / w) >= d) by (nonlinear_arith)
            requires w >= 1, d >= 1;
    }
}

/// A size given as a negative number wraps around to that number plus
/// 2^32, as the original's cast to `u32` does.
pub proof fn law_negative_size_wraps(s: i32)
    requires
        s < 0,
    ensures
        min_dimension(Some(s)) == s + 0x1_0000_0000,
{
}

/// The rendered image is never wider than needed: less than the requested
/// width (at least 1) plus one module block per module of the code and its
/// quiet zones.
pub proof fn law_rendered_side_is_tight(side: int, quiet_zone: u32, d: u32)
    requires
        side >= 1,
    ensures
        rendered_side(side, quiet_zone, d) < (if d == 0 { 1 } else { d as int }) + side + 2 * quiet_zone,
        rendered_side(side, quiet_zone, d) >= d,
{
    let w = side + 2 * quiet_zone;
    if d > 0 {
        assert(w * ((d + w - 1) / w) >= d && w * ((d + w - 1) / w) < d + w) by (nonlinear_arith)
            requires w >= 1, d >= 1;
    }
}

/// Dropping a database names it right after `DROP DATABASE IF EXISTS `.
pub proof fn law_drop_names_the_database(name: Seq<char>)
    ensures
        starts_with(drop_database_sql(name), "DROP DATABASE IF EXISTS "@ + name),
        ends_with(drop_database_sql(name), name + "; "@),
{
    assert(drop_database_sql(name) =~= ("DROP DATABASE IF EXISTS "@ + name) + "; "@);
    starts_and_ends("DROP DATABASE IF EXISTS "@ + name, "; "@);
    assert(drop_database_sql(name) =~= "DROP DATABASE IF EXISTS "@ + (name + "; "@));
    starts_and_ends("DROP DATABASE IF EXISTS "@, name + "; "@);
}

/// A change of owner names the new owner last, after ` OWNER TO `.
pub proof fn law_owner_change_names_the_owner(name: Seq<char>, owner: Seq<char>)
    ensures
        ends_with(set_owner_sql(name, owner), " OWNER TO "@ + owner),
        starts_with(set_owner_sql(name, owner), "ALTER DATABASE "@ + name),
{
    assert(set_owner_sql(name, owner) =~= ("ALTER DATABASE "@ + name) + (" OWNER TO "@ + owner));
    starts_and_ends("ALTER DATABASE "@ + name, " OWNER TO "@ + owner);
}

/// A revocation names the privileges first, then the database after
/// ` ON DATABASE `, then the user after ` FROM `.
pub proof fn law_revoke_puts_each_name_in_its_place(name: Seq<char>, user: Seq<char>, privileges: Seq<char>)
    ensures
        starts_with(revoke_sql(name, user, privileges), "REVOKE "@ + privileges + " ON DATABASE "@ + name),
        ends_with(revoke_sql(name, user, privileges), " FROM "@ + user),
        revoke_sql(name, user, privileges).len()
            == ("REVOKE "@ + privileges + " ON DATABASE "@ + name).len() + (" FROM "@ + user).len(),
{
    let a = "REVOKE "@ + privileges + " ON DATABASE "@ + name;
    let b = " FROM "@ + user;
    assert(revoke_sql(name, user, privileges) =~= a + b);
    starts_and_ends(a, b);
}

/// A qualified name is the schema, a dot, and the table.
pub proof fn law_qualified_name(schema: Seq<char>, table: Seq<char>)
    ensures
        starts_with(qualified(schema, table), schema + "."@),
        ends_with(qualified(schema, table), "."@ + table),
        qualified(schema, table).len() == schema.len() + 1 + table.len(),
{
    reveal_strlit(".");
    assert(qualified(schema, table) =~= (schema + "."@) + table);
    starts_and_ends(schema + "."@, table);
    assert(qualified(schema, table) =~= schema + ("."@ + table));
    starts_and_ends(schema, "."@ + table);
}

/// Creating and dropping a table, reading all its rows and deleting them
/// all address the same `<schema>.<table>`, right after their keywords.
pub proof fn law_table_statements_address_the_table(schema: Seq<char>, table: Seq<char>, columns: Seq<char>)
    ensures
        starts_with(create_table_sql(schema, table, columns), "CREATE TABLE "@ + qualified(schema, table) + " ("@),
        ends_with(create_table_sql(schema, table, columns), " ("@ + columns + ")"@),
        drop_table_sql(schema, table) == "DROP TABLE IF EXISTS "@ + qualified(schema, table) + " CASCADE"@,
        select_all_sql(schema, table) == "SELECT * FROM "@ + qualified(schema, table),
        delete_all_sql(schema, table) == "DELETE FROM "@ + qualified(schema, table),
{
    let a = "CREATE TABLE "@ + qualified(schema, table);
    assert(create_table_sql(schema, table, columns) =~= (a + " ("@) + (columns + ")"@));
    starts_and_ends(a + " ("@, columns + ")"@);
    assert(create_table_sql(schema, table, columns) =~= a + (" ("@ + columns + ")"@));
    starts_and_ends(a, " ("@ + columns + ")"@);
}

/// Creating a schema names it last, after `CREATE SCHEMA `.
pub proof fn law_schema_creation_names_the_schema(name: Seq<char>)
    ensures
        ends_with(create_schema_sql(name), name),
        starts_with(create_schema_sql(name), "CREATE SCHEMA "@),
{
    starts_and_ends("CREATE SCHEMA "@, name);
}

/// The reserved databases are exactly `postgres`, `template1` and
/// `template0`; the drop operations keep those and `admin_db`, nothing else.
pub proof fn law_protected_databases(n: Seq<char>)
    ensures
        reserved_databases().contains(n) <==> (n == "postgres"@ || n == "template1"@ || n == "template0"@),
        undroppable_databases().contains(n) <==> (reserved_databases().contains(n) || n == "admin_db"@),
{
    let r = reserved_databases();
    let u = undroppable_databases();
    if n == "postgres"@ { assert(r[0] == n && u[0] == n); }
    if n == "template1"@ { assert(r[1] == n && u[1] == n); }
    if n == "template0"@ { assert(r[2] == n && u[2] == n); }
    if n == "admin_db"@ { assert(u[3] == n); }
    if r.contains(n) {
        let i = choose|i: int| 0 <= i < r.len() && r[i] == n;
        assert(u[i] == n);
    }
    if u.contains(n) {
        let i = choose|i: int| 0 <= i < u.len() && u[i] == n;
        if i < 3 { assert(r[i] == n); }
    }
}

} // verus!
