use backend::data::{
    delete_all_statement, delete_by_id_statement, insert_statement, placeholder_list,
    select_all_statement, select_by_id_statement,
};
use backend::database::{
    create_database_statement, database_lookup_allowed, databases_to_drop, drop_database_plan,
    drop_database_statement, listed_databases, listed_system_databases, privilege_listing_check,
    privileges_from_rows, rename_database_plan, revoke_privileges_plan, set_database_owner_plan,
    table_names, DatabaseRow,
};
use backend::guard::{is_reserved, is_undroppable, reserved_names, undroppable_names, OpError};
use backend::qr::{
    failure_message, qr_encode, qr_min_dimension, qr_render, renderable_dimension, QrCodeError, QrFailure,
};
use backend::reply::{user_creation_reply, user_listing_reply, Reply};
use backend::schema::{create_schema_plan, drop_schema_statement};
use backend::table::{create_table_statement, drop_all_tables_statements, drop_table_statement};
use backend::text::{decimal_string, join_strings, names_contain};

fn strings(items: &[&str]) -> Vec<String> {
    items.iter().map(|s| s.to_string()).collect()
}

fn row(name: &str) -> DatabaseRow {
    DatabaseRow {
        name: name.to_string(),
        size: Some("8 kB".to_string()),
        owner: "postgres".to_string(),
        collation: "C".to_string(),
        ctype: "C".to_string(),
        allow_connections: true,
        connection_limit: -1,
        is_template: false,
    }
}

fn row_names(rows: &[DatabaseRow]) -> Vec<String> {
    rows.iter().map(|r| r.name.clone()).collect()
}

fn column_not_found(e: &OpError) -> String {
    match e {
        OpError::ColumnNotFound(m) => m.clone(),
        OpError::Protocol(_) => panic!("expected ColumnNotFound"),
    }
}

#[test]
fn decimal_renders_numbers() {
    assert_eq!(decimal_string(0), "0");
    assert_eq!(decimal_string(7), "7");
    assert_eq!(decimal_string(42), "42");
    assert_eq!(decimal_string(1000), "1000");
    assert_eq!(decimal_string(usize::MAX), usize::MAX.to_string());
}

#[test]
fn join_puts_separator_between_neighbours() {
    assert_eq!(join_strings(&strings(&[]), ", "), "");
    assert_eq!(join_strings(&strings(&["a"]), ", "), "a");
    assert_eq!(join_strings(&strings(&["a", "b", "c"]), ", "), "a, b, c");
}

#[test]
fn names_contain_finds_exact_names() {
    let list = strings(&["postgres", "shop"]);
    assert!(names_contain(&list, "shop"));
    assert!(!names_contain(&list, "sho"));
    assert!(!names_contain(&strings(&[]), "shop"));
}

#[test]
fn reserved_and_undroppable_lists() {
    assert_eq!(reserved_names(), strings(&["postgres", "template1", "template0"]));
    assert_eq!(undroppable_names(), strings(&["postgres", "template1", "template0", "admin_db"]));
    assert!(is_reserved("template0"));
    assert!(!is_reserved("admin_db"));
    assert!(is_undroppable("admin_db"));
    assert!(!is_undroppable("shop"));
}

#[test]
fn create_database_without_password() {
    assert_eq!(create_database_statement("shop", None), "CREATE DATABASE shop;");
}

#[test]
fn create_database_with_password() {
    assert_eq!(
        create_database_statement("shop", Some("secret")),
        "CREATE DATABASE shop; WITH OWNER = postgres ENCODING = 'UTF8' CONNECTION LIMIT = -1 TEMPLATE = template0; CREATE USER shop WITH PASSWORD 'secret';"
    );
}

#[test]
fn drop_by_name_spares_system_databases() {
    assert_eq!(drop_database_statement("shop"), "DROP DATABASE IF EXISTS shop; ");
    assert_eq!(drop_database_plan("shop"), Some("DROP DATABASE IF EXISTS shop; ".to_string()));
    assert_eq!(drop_database_plan("postgres"), None);
    assert_eq!(drop_database_plan("template1"), None);
    assert_eq!(drop_database_plan("template0"), None);
    assert_eq!(drop_database_plan("admin_db"), None);
}

#[test]
fn bulk_drop_keeps_undroppable_in_order() {
    let names = strings(&["postgres", "shop", "admin_db", "template1", "crm", "template0"]);
    assert_eq!(databases_to_drop(names), strings(&["shop", "crm"]));
    assert_eq!(databases_to_drop(Vec::new()), Vec::<String>::new());
}

#[test]
fn listing_hides_reserved_databases() {
    let rows = vec![row("postgres"), row("shop"), row("admin_db"), row("template1"), row("crm")];
    let listed = listed_databases(rows);
    assert_eq!(row_names(&listed), strings(&["shop", "admin_db", "crm"]));
    assert_eq!(listed[0].size, Some("8 kB".to_string()));
    assert_eq!(listed[0].connection_limit, -1);
}

#[test]
fn system_listing_hides_nothing() {
    let rows = vec![row("postgres"), row("shop"), row("template0")];
    let listed = listed_system_databases(rows);
    assert_eq!(row_names(&listed), strings(&["postgres", "shop", "template0"]));
}

#[test]
fn dropped_databases_are_listed() {
    let names = strings(&["postgres", "shop", "admin_db", "crm"]);
    let rows = vec![row("postgres"), row("shop"), row("admin_db"), row("crm")];
    let listed = row_names(&listed_databases(rows));
    for doomed in databases_to_drop(names) {
        assert!(listed.contains(&doomed));
    }
}

#[test]
fn lookup_refuses_reserved_databases() {
    assert!(database_lookup_allowed("shop"));
    assert!(database_lookup_allowed("admin_db"));
    assert!(!database_lookup_allowed("postgres"));
    assert!(!database_lookup_allowed("template0"));
}

#[test]
fn table_names_skip_missing_entries() {
    let entries = vec![Some("users".to_string()), None, Some("orders".to_string())];
    assert_eq!(table_names(entries), strings(&["users", "orders"]));
}

#[test]
fn rename_checks_new_name_first() {
    let e = rename_database_plan("postgres", "template0", "shop").unwrap_err();
    assert_eq!(column_not_found(&e), "New name conflicts with a system database");
}

#[test]
fn rename_refuses_system_and_current() {
    let e = rename_database_plan("template1", "other", "shop").unwrap_err();
    assert_eq!(column_not_found(&e), "Cannot rename system or current database");
    let e = rename_database_plan("shop", "other", "shop").unwrap_err();
    assert_eq!(e.message(), "Cannot rename system or current database");
}

#[test]
fn rename_builds_statement() {
    assert_eq!(rename_database_plan("shop", "store", "admin_db").unwrap(), "ALTER DATABASE shop RENAME TO store");
}

#[test]
fn set_owner_plans() {
    assert_eq!(
        set_database_owner_plan("shop", "alice", "admin_db").unwrap(),
        "ALTER DATABASE shop OWNER TO alice"
    );
    let e = set_database_owner_plan("postgres", "alice", "admin_db").unwrap_err();
    assert_eq!(column_not_found(&e), "Cannot change owner of system or current database");
    let e = set_database_owner_plan("admin_db", "alice", "admin_db").unwrap_err();
    assert_eq!(column_not_found(&e), "Cannot change owner of system or current database");
}

#[test]
fn revoke_plans() {
    assert_eq!(
        revoke_privileges_plan("shop", "bob", "CONNECT", "admin_db").unwrap(),
        "REVOKE CONNECT ON DATABASE shop FROM bob"
    );
    let e = revoke_privileges_plan("template0", "bob", "CONNECT", "admin_db").unwrap_err();
    assert_eq!(column_not_found(&e), "Cannot revoke privileges on system or current database");
    let e = revoke_privileges_plan("admin_db", "bob", "CONNECT", "admin_db").unwrap_err();
    assert_eq!(column_not_found(&e), "Cannot revoke privileges on system or current database");
}

#[test]
fn privilege_listing() {
    assert!(privilege_listing_check("shop").is_ok());
    let e = privilege_listing_check("postgres").unwrap_err();
    assert_eq!(column_not_found(&e), "Cannot list priviledges on system");
    let rows = vec![
        (Some("alice".to_string()), Some("public".to_string()), Some("SELECT".to_string())),
        (Some("bob".to_string()), Some("sales".to_string()), Some("INSERT".to_string())),
    ];
    assert_eq!(
        privileges_from_rows(rows),
        vec![
            ("alice".to_string(), "public".to_string(), "SELECT".to_string()),
            ("bob".to_string(), "sales".to_string(), "INSERT".to_string()),
        ]
    );
}

#[test]
fn schema_creation_plans() {
    assert_eq!(create_schema_plan("sales", "shop").unwrap(), "CREATE SCHEMA sales");
    match create_schema_plan("sales", "postgres").unwrap_err() {
        OpError::Protocol(m) => assert_eq!(m, "Cannot create schema in system database"),
        OpError::ColumnNotFound(_) => panic!("expected Protocol"),
    }
}

#[test]
fn table_statements() {
    assert_eq!(
        create_table_statement("public", "users", "id SERIAL PRIMARY KEY, name VARCHAR(100)"),
        "CREATE TABLE public.users (id SERIAL PRIMARY KEY, name VARCHAR(100))"
    );
    assert_eq!(drop_table_statement("public", "users"), "DROP TABLE IF EXISTS public.users CASCADE");
    assert_eq!(
        drop_all_tables_statements("s", &strings(&["a", "b"])),
        strings(&["DROP TABLE IF EXISTS s.a CASCADE", "DROP TABLE IF EXISTS s.b CASCADE"])
    );
}

#[test]
fn insert_statement_numbers_parameters() {
    assert_eq!(
        insert_statement("public", "users", &strings(&["id", "name", "email"])),
        "INSERT INTO public.users (id, name, email) VALUES ($1, $2, $3)"
    );
    assert_eq!(insert_statement("s", "t", &Vec::new()), "INSERT INTO s.t () VALUES ()");
}

#[test]
fn placeholders_past_nine() {
    let params = placeholder_list(12);
    assert_eq!(params.len(), 12);
    assert_eq!(params[0], "$1");
    assert_eq!(params[9], "$10");
    assert_eq!(params[11], "$12");
}

#[test]
fn select_and_delete_statements() {
    assert_eq!(select_all_statement("public", "users"), "SELECT * FROM public.users");
    assert_eq!(select_by_id_statement("public", "users", "id"), "SELECT * FROM public.users WHERE id = $1");
    assert_eq!(delete_by_id_statement("public", "users", "id"), "DELETE FROM public.users WHERE id = $1");
    assert_eq!(delete_all_statement("public", "users"), "DELETE FROM public.users");
}

#[test]
fn qr_size_defaults_and_wraps() {
    assert_eq!(qr_min_dimension(None), 200);
    assert_eq!(qr_min_dimension(Some(300)), 300);
    assert_eq!(qr_min_dimension(Some(0)), 0);
    assert_eq!(qr_min_dimension(Some(-1)), u32::MAX);
}

#[test]
fn qr_encode_lays_out_modules() {
    let grid = qr_encode("https://example.com").unwrap();
    assert_eq!(grid.side, 25);
    assert_eq!(grid.dark.len(), grid.side * grid.side);
    // The top-left finder pattern: a dark ring around a light ring.
    assert!(grid.dark[0] && grid.dark[6] && grid.dark[6 * grid.side]);
    assert!(!grid.dark[grid.side + 1]);
    let again = qr_encode("https://example.com").unwrap();
    assert_eq!(grid.dark, again.dark);
    let other = qr_encode("another text").unwrap();
    assert_ne!(grid.dark, other.dark);
}

#[test]
fn qr_render_meets_requested_size() {
    let grid = qr_encode("https://example.com").unwrap();
    let img = qr_render(&grid, None);
    assert_eq!(img.width, img.height);
    // 25 modules and two quiet zones of 4: 33 modules of 7 pixels.
    assert_eq!(img.width, 231);
    assert_eq!(img.pixels.len(), (img.width * img.height) as usize);
    assert!(img.pixels.iter().all(|p| *p == 0 || *p == 255));
    // The quiet zone is light; the first module of the code is dark.
    assert_eq!(img.pixels[0], 255);
    let first_dark = (4 * 7 * img.width + 4 * 7) as usize;
    assert_eq!(img.pixels[first_dark], 0);
    let small = qr_render(&grid, Some(0));
    assert_eq!(small.width, 33);
}

#[test]
fn qr_render_draws_every_module() {
    let grid = qr_encode("hello").unwrap();
    let img = qr_render(&grid, Some(50));
    let w = grid.side + 8;
    let u = (50 + w - 1) / w;
    assert_eq!(img.width as usize, w * u);
    let n = img.width as usize;
    for y in 0..n {
        for x in 0..n {
            let (mx, my) = ((x / u) as isize - 4, (y / u) as isize - 4);
            let side = grid.side as isize;
            let dark = mx >= 0 && my >= 0 && mx < side && my < side
                && grid.dark[(my * side + mx) as usize];
            assert_eq!(img.pixels[y * n + x], if dark { 0 } else { 255 });
        }
    }
}

#[test]
fn drop_schema_statement_text() {
    assert_eq!(drop_schema_statement(), "DROP SCHEMA IF EXISTS $1 CASCADE");
}

#[test]
fn qr_default_size_is_200() {
    let grid = qr_encode("hello").unwrap();
    let a = qr_render(&grid, None);
    let b = qr_render(&grid, Some(200));
    assert_eq!(a.width, b.width);
    assert_eq!(a.pixels, b.pixels);
}

#[test]
fn qr_largest_code_at_size_zero() {
    let data = "x".repeat(2300);
    let grid = qr_encode(&data).unwrap();
    assert_eq!(grid.side, 177);
    let img = qr_render(&grid, Some(0));
    assert_eq!(img.width, 185);
}

#[test]
fn qr_renderable_sizes() {
    assert!(renderable_dimension(0));
    assert!(renderable_dimension(u32::MAX - 184));
    assert!(!renderable_dimension(u32::MAX - 183));
}

#[test]
fn qr_encode_rejects_too_long_data() {
    let data = "x".repeat(10000);
    match qr_encode(&data) {
        Err(QrCodeError::InvalidData(m)) => assert_eq!(m, "QR Code error: data too long"),
        Ok(_) => panic!("expected an error"),
    }
}

#[test]
fn qr_error_messages() {
    assert_eq!(failure_message(QrFailure::InvalidCharacter), "invalid character");
    assert_eq!(failure_message(QrFailure::InvalidEciDesignator), "invalid ECI designator");
    let e = QrCodeError::from(QrFailure::DataTooLong);
    assert_eq!(e.to_string(), "QR code error: InvalidData(\"QR Code error: data too long\")");
    let quoted = QrCodeError::InvalidData("say \"hi\"".to_string());
    assert_eq!(quoted.to_string(), "QR code error: InvalidData(\"say \\\"hi\\\"\")");
}

#[test]
fn user_replies() {
    match user_creation_reply(true) {
        Reply::Text { status, body } => {
            assert_eq!(status, 201);
            assert_eq!(body, "User created");
        }
        Reply::Json { .. } => panic!("expected text"),
    }
    match user_creation_reply(false) {
        Reply::Text { status, body } => {
            assert_eq!(status, 500);
            assert_eq!(body, "Error creating user");
        }
        Reply::Json { .. } => panic!("expected text"),
    }
    assert!(matches!(user_listing_reply(true), Reply::Json { status: 200 }));
    match user_listing_reply(false) {
        Reply::Text { status, body } => {
            assert_eq!(status, 500);
            assert_eq!(body, "Error fetching users");
        }
        Reply::Json { .. } => panic!("expected text"),
    }
}
