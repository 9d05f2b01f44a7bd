//! What holds of the database operations taken together.
use vstd::prelude::*;
use crate::database::{DatabaseRow, kept_by_key, name_itself, names_without, present, row_name, rows_without};
use crate::qr::{QrFailure, failure_text, module_pixels, rendered_pixels, rendered_side};
use crate::guard::{reserved_databases, undroppable_databases};
use crate::qr::{min_dimension, qr_rendering, standard_quiet_zone};

verus! {

/// The names of the rows, in order.
pub open spec fn row_names(rows: Seq<DatabaseRow>) -> Seq<Seq<char>> {
    rows.map_values(|r: DatabaseRow| r.name@)
}

/// An item survives the filter exactly when it was there and its key is
/// not excluded.
pub proof fn kept_by_key_members<T>(items: Seq<T>, key: spec_fn(T) -> Seq<char>, excluded: Seq<Seq<char>>, x: T)
    ensures
        kept_by_key(items, key, excluded).contains(x) <==> items.contains(x) && !excluded.contains(key(x)),
    decreases items.len(),
{
    if items.len() > 0 {
        let init = items.drop_last();
        let last = items.last();
        kept_by_key_members(init, key, excluded, x);
        assert(items =~= init.push(last));
        if items.contains(x) && x != last {
            let k = choose|k: int| 0 <= k < items.len() && items[k] == x;
            assert(init[k] == x);
        }
        if init.contains(x) {
            let k = choose|k: int| 0 <= k < init.len() && init[k] == x;
            assert(items[k] == x);
        }
        let kept = kept_by_key(init, key, excluded);
        if !excluded.contains(key(last)) {
            assert(kept.push(last).last() == last);
            if kept.contains(x) {
                let k = choose|k: int| 0 <= k < kept.len() && kept[k] == x;
                assert(kept.push(last)[k] == x);
            }
            if kept.push(last).contains(x) && x != last {
                let k = choose|k: int| 0 <= k < kept.len() + 1 && kept.push(last)[k] == x;
                assert(kept[k] == x);
            }
        }
    }
}

/// A name survives the filter exactly when it was there and is not excluded.
pub proof fn names_without_members(names: Seq<Seq<char>>, excluded: Seq<Seq<char>>, n: Seq<char>)
    ensures
        names_without(names, excluded).contains(n) <==> names.contains(n) && !excluded.contains(n),
{
    kept_by_key_members(names, |m: Seq<char>| name_itself(m), excluded, n);
}

/// A row survives the filter exactly when it was there and its database is
/// not excluded.
pub proof fn rows_without_members(rows: Seq<DatabaseRow>, excluded: Seq<Seq<char>>, r: DatabaseRow)
    ensures
        rows_without(rows, excluded).contains(r) <==> rows.contains(r) && !excluded.contains(r.name@),
{
    kept_by_key_members(rows, |q: DatabaseRow| row_name(q), excluded, r);
}

/// Dropping all databases never drops a system database nor the
/// administration database, and drops every other catalogued database.
pub proof fn law_bulk_drop_spares_exactly_the_undroppable(names: Seq<Seq<char>>, n: Seq<char>)
    ensures
        names_without(names, undroppable_databases()).contains(n)
            <==> names.contains(n) && !undroppable_databases().contains(n),
{
    names_without_members(names, undroppable_databases(), n);
}

/// The database listing shows a catalogue row exactly when its database is
/// not a reserved one, which is exactly when looking that database up is
/// allowed.
pub proof fn law_listing_hides_exactly_the_reserved(rows: Seq<DatabaseRow>, r: DatabaseRow)
    ensures
        rows.contains(r) ==> (rows_without(rows, reserved_databases()).contains(r)
            <==> !reserved_databases().contains(r.name@)),
        rows_without(rows, reserved_databases()).contains(r) ==> rows.contains(r),
{
    rows_without_members(rows, reserved_databases(), r);
}

/// The listing that includes system databases is the catalogue itself.
pub proof fn law_system_listing_hides_nothing(rows: Seq<DatabaseRow>)
    ensures
        rows_without(rows, Seq::empty()) == rows,
    decreases rows.len(),
{
    if rows.len() > 0 {
        law_system_listing_hides_nothing(rows.drop_last());
        assert(rows.drop_last().push(rows.last()) =~= rows);
    }
}

/// The user listing is the system listing with the reserved databases
/// taken out.
pub proof fn law_listing_refines_system_listing(rows: Seq<DatabaseRow>)
    ensures
        rows_without(rows, reserved_databases())
            == rows_without(rows_without(rows, Seq::empty()), reserved_databases()),
{
    law_system_listing_hides_nothing(rows);
}

/// Every database that dropping all databases drops is one that the
/// database listing shows.
pub proof fn law_dropped_databases_are_listed(rows: Seq<DatabaseRow>, n: Seq<char>)
    requires
        names_without(row_names(rows), undroppable_databases()).contains(n),
    ensures
        row_names(rows_without(rows, reserved_databases())).contains(n),
{
    names_without_members(row_names(rows), undroppable_databases(), n);
    let k = choose|k: int| 0 <= k < row_names(rows).len() && row_names(rows)[k] == n;
    let r = rows[k];
    assert(rows.contains(r));
    assert(!reserved_databases().contains(n)) by {
        if reserved_databases().contains(n) {
            let j = choose|j: int| 0 <= j < reserved_databases().len() && reserved_databases()[j] == n;
            assert(undroppable_databases()[j] == n);
        }
    }
    rows_without_members(rows, reserved_databases(), r);
    let listed = rows_without(rows, reserved_databases());
    let i = choose|i: int| 0 <= i < listed.len() && listed[i] == r;
    assert(row_names(listed)[i] == n);
}

/// Once a bulk drop has dropped what it drops, a second one drops nothing:
/// every database still catalogued is one the first left, so it is kept.
pub proof fn law_second_bulk_drop_drops_nothing(names: Seq<Seq<char>>, remaining: Seq<Seq<char>>)
    requires
        forall|i: int| 0 <= i < remaining.len() ==> names.contains(#[trigger] remaining[i])
            && !names_without(names, undroppable_databases()).contains(remaining[i]),
    ensures
        names_without(remaining, undroppable_databases()).len() == 0,
{
    if names_without(remaining, undroppable_databases()).len() > 0 {
        let n = names_without(remaining, undroppable_databases())[0];
        assert(names_without(remaining, undroppable_databases()).contains(n));
        names_without_members(remaining, undroppable_databases(), n);
        let i = choose|i: int| 0 <= i < remaining.len() && remaining[i] == n;
        names_without_members(names, undroppable_databases(), n);
        assert(names.contains(remaining[i]));
    }
}

/// Asking for no size renders a code exactly as asking for 200 pixels does.
pub proof fn law_default_size_is_200(side: int, dark: Seq<bool>)
    ensures
        qr_rendering(side, dark, standard_quiet_zone(), min_dimension(None))
            == qr_rendering(side, dark, standard_quiet_zone(), min_dimension(Some(200i32))),
{
}

/// Filtering by key keeps, in their order, exactly the items that the
/// standard library's filter keeps for "key not excluded".
pub proof fn law_kept_by_key_is_a_filter<T>(items: Seq<T>, key: spec_fn(T) -> Seq<char>, excluded: Seq<Seq<char>>)
    ensures
        kept_by_key(items, key, excluded) == items.filter(|x: T| !excluded.contains(key(x))),
    decreases items.len(),
{
    reveal(Seq::filter);
    if items.len() > 0 {
        law_kept_by_key_is_a_filter(items.drop_last(), key, excluded);
    }
}

/// The database listing is the catalogue filtered, in catalogue order, by
/// "not reserved"; the bulk drop is the names filtered by "not undroppable".
pub proof fn law_listings_are_order_preserving_filters(rows: Seq<DatabaseRow>, names: Seq<Seq<char>>)
    ensures
        rows_without(rows, reserved_databases())
            == rows.filter(|r: DatabaseRow| !reserved_databases().contains(r.name@)),
        names_without(names, undroppable_databases())
            == names.filter(|n: Seq<char>| !undroppable_databases().contains(n)),
{
    law_kept_by_key_is_a_filter(rows, |q: DatabaseRow| row_name(q), reserved_databases());
    law_kept_by_key_is_a_filter(names, |m: Seq<char>| name_itself(m), undroppable_databases());
    assert((|q: DatabaseRow| !reserved_databases().contains((|r: DatabaseRow| row_name(r))(q)))
        =~= (|r: DatabaseRow| !reserved_databases().contains(r.name@)));
    assert((|q: Seq<char>| !undroppable_databases().contains((|m: Seq<char>| name_itself(m))(q)))
        =~= (|n: Seq<char>| !undroppable_databases().contains(n)));
}

/// The tables a lookup reports are the names of the present entries, in
/// order: the standard library's `filter_map` with the identity on `Some`.
pub proof fn law_table_names_keep_present_entries(entries: Seq<Option<String>>)
    ensures
        present(entries) == entries.filter_map(|e: Option<String>| match e {
            Some(s) => Some(s@),
            None => None::<Seq<char>>,
        }),
    decreases entries.len(),
{
    if entries.len() > 0 {
        law_table_names_keep_present_entries(entries.drop_last());
        let f = |e: Option<String>| match e {
            Some(s) => Some(s@),
            None => None::<Seq<char>>,
        };
        let rest = entries.drop_last().filter_map(f);
        match entries.last() {
            Some(s) => assert(rest.push(s@) =~= rest + seq![s@]),
            None => {},
        }
    }
}

/// The top-left pixel of a rendered code lies in the quiet zone and is
/// light; the first pixel of the code itself is dark exactly when the code's
/// first module is.
pub proof fn law_rendering_starts_with_quiet_zone(side: int, dark: Seq<bool>, d: u32)
    requires
        side >= 1,
        dark.len() == side * side,
    ensures
        rendered_pixels(side, dark, 4, d)[0] == 255,
        ({
            let u = module_pixels(side, 4, d);
            let n = rendered_side(side, 4, d);
            rendered_pixels(side, dark, 4, d)[4 * u * n + 4 * u] == if dark[0] { 0u8 } else { 255u8 }
        }),
{
    let u = module_pixels(side, 4, d);
    let n = rendered_side(side, 4, d);
    let w = side + 8;
    assert(u >= 1) by {
        if d > 0 {
            assert((d + w - 1) / w >= 1) by (nonlinear_arith) requires w >= 1, d >= 1;
        }
    }
    assert(n == w * u);
    assert(n >= 9) by (nonlinear_arith) requires n == w * u, w >= 9, u >= 1;
    assert(n * n > 0) by (nonlinear_arith) requires n >= 9;
    assert(0int % n == 0 && 0int / n == 0);
    assert(0int / u == 0);
    let i = 4 * u * n + 4 * u;
    assert(0 <= i < n * n && i % n == 4 * u && i / n == 4 * u) by (nonlinear_arith)
        requires i == 4 * u * n + 4 * u, n == w * u, w >= 9, u >= 1;
    assert((4 * u) / u == 4) by (nonlinear_arith) requires u >= 1;
}

/// How the encoder describes each failure, word for word.
pub proof fn law_failure_texts(f: QrFailure)
    ensures
        f == QrFailure::DataTooLong ==> failure_text(f) == "data too long"@,
        f == QrFailure::InvalidVersion ==> failure_text(f) == "invalid version"@,
        f == QrFailure::UnsupportedCharacterSet ==> failure_text(f) == "unsupported character set"@,
        f == QrFailure::InvalidEciDesignator ==> failure_text(f) == "invalid ECI designator"@,
        f == QrFailure::InvalidCharacter ==> failure_text(f) == "invalid character"@,
{
}

} // verus!
