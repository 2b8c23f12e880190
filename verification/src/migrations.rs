//! The catalog migrations: a fixed list of known configuration keys per
//! logical section, upserted into the catalog table keyed by
//! (section, name). Running them converges to the same catalog whatever
//! the store held before, so a second run changes nothing; removing or
//! renaming a key takes a new migration, as no orphaned row is cleaned up.

use vstd::prelude::*;
use vstd::string::*;
use crate::models::{Setting, SettingValueType, SettingView, ValueTypeView, spec_is_valid_value};
use crate::numeric::{digits_value, is_i64_literal, is_f64_literal, is_mantissa, sign_stripped,
    all_digits};
use crate::db::{DbError, CatalogRowV, catalog_rows, preset_rows, preset_setting_rows,
    tx_preset_rows, tx_preset_setting_rows, tx_catalog_rows, setting_columns,
    create_catalog_table, upsert_catalog_row, value_type_tag, value_type_possible,
    begin_transaction, commit_transaction, rollback_transaction};

pub mod rendering_thread;
pub mod error_handling;
pub mod streaming_settings;
pub mod renderer_settings;
pub mod input_settings;
pub mod core_system;
pub mod texture_streaming;
pub mod engine;
pub mod shader_compiler;
pub mod garbage_collection;

verus! {

/// A catalog row as a setting view; its current value starts at the
/// default.
pub open spec fn row_view(
    section: Seq<char>,
    name: Seq<char>,
    description: Seq<char>,
    value_type: ValueTypeView,
    default_value: Seq<char>,
    min_value: Option<Seq<char>>,
    max_value: Option<Seq<char>>,
    impact: Seq<char>,
) -> SettingView {
    SettingView {
        name: name,
        section: section,
        description: description,
        value_type: value_type,
        current_value: default_value,
        default_value: default_value,
        min_value: min_value,
        max_value: max_value,
        impact: impact,
    }
}

/// Builds one catalog setting; its current value starts at the default.
pub fn mk_setting(
    section: &str,
    name: &str,
    description: &str,
    value_type: SettingValueType,
    default_value: &str,
    min_value: Option<&str>,
    max_value: Option<&str>,
    impact: &str,
) -> (s: Setting)
    ensures
        s.deep_view() == row_view(
            section@,
            name@,
            description@,
            value_type.deep_view(),
            default_value@,
            min_value.deep_view(),
            max_value.deep_view(),
            impact@,
        ),
{
    Setting {
        name: name.to_owned(),
        section: section.to_owned(),
        description: description.to_owned(),
        value_type,
        current_value: default_value.to_owned(),
        default_value: default_value.to_owned(),
        min_value: opt_owned(min_value),
        max_value: opt_owned(max_value),
        impact: impact.to_owned(),
    }
}

/// Owns an optional borrowed string.
fn opt_owned(o: Option<&str>) -> (r: Option<String>)
    ensures
        r.deep_view() == o.deep_view(),
{
    match o {
        Some(s) => Some(s.to_owned()),
        None => None,
    }
}

/// The options of the two-valued True/False enumeration many engine
/// switches use.
pub open spec fn true_false_options() -> Seq<Seq<char>> {
    seq!["True"@, "False"@]
}

/// The two-valued True/False enumeration many engine switches use.
pub fn bool_enum() -> (t: SettingValueType)
    ensures
        t.deep_view() == ValueTypeView::Enum(true_false_options()),
{
    let mut options: Vec<String> = Vec::new();
    options.push("True".to_owned());
    options.push("False".to_owned());
    proof {
        assert(options.deep_view() =~= true_false_options());
    }
    SettingValueType::Enum(options)
}

/// The catalog table rows a list of settings is stored as.
pub open spec fn catalog_cmap(rows: Seq<SettingView>) -> Map<(Seq<char>, Seq<char>), CatalogRowV>
    decreases rows.len(),
{
    if rows.len() == 0 {
        Map::empty()
    } else {
        catalog_cmap(rows.drop_last()).insert(
            (rows.last().section, rows.last().name),
            setting_columns(rows.last()),
        )
    }
}

/// Upserting a concatenation is upserting the parts in turn.
proof fn lemma_cmap_append(a: Seq<SettingView>, b: Seq<SettingView>)
    ensures
        catalog_cmap(a + b) == catalog_cmap(a).union_prefer_right(catalog_cmap(b)),
    decreases b.len(),
{
    if b.len() == 0 {
        assert(a + b =~= a);
        assert(catalog_cmap(a).union_prefer_right(catalog_cmap(b)) =~= catalog_cmap(a));
    } else {
        lemma_cmap_append(a, b.drop_last());
        assert((a + b).drop_last() =~= a + b.drop_last());
        assert((a + b).last() == b.last());
        assert(catalog_cmap(a).union_prefer_right(catalog_cmap(b.drop_last())).insert(
            (b.last().section, b.last().name),
            setting_columns(b.last()),
        ) =~= catalog_cmap(a).union_prefer_right(catalog_cmap(b)));
    }
}

/// Upserts a list of settings into the catalog inside the caller's open
/// transaction: each row is written under its (section, name), a later
/// row over an earlier one with the same key. It opens no transaction of
/// its own, so a failure leaves the rollback snapshot for the caller.
fn apply_unit_rows(conn: &mut rusqlite::Connection, settings: &Vec<Setting>) -> (r: Result<
    (),
    DbError,
>)
    ensures
        preset_rows(*final(conn)) == preset_rows(*old(conn)),
        preset_setting_rows(*final(conn)) == preset_setting_rows(*old(conn)),
        tx_preset_rows(*final(conn)) == tx_preset_rows(*old(conn)),
        tx_preset_setting_rows(*final(conn)) == tx_preset_setting_rows(*old(conn)),
        tx_catalog_rows(*final(conn)) == tx_catalog_rows(*old(conn)),
        r is Ok ==> catalog_rows(*final(conn)) == catalog_rows(*old(conn)).union_prefer_right(
            catalog_cmap(settings.deep_view()),
        ),
{
    let ghost rows = settings.deep_view();
    let n = settings.len();
    let mut i: usize = 0;
    proof {
        assert(catalog_cmap(rows.subrange(0, 0)) =~= Map::<(Seq<char>, Seq<char>), CatalogRowV>::empty());
        assert(catalog_rows(*conn) =~= catalog_rows(*old(conn)).union_prefer_right(
            catalog_cmap(rows.subrange(0, 0)),
        ));
    }
    while i < n
        invariant
            0 <= i <= n,
            n == settings.len(),
            rows == settings.deep_view(),
            preset_rows(*conn) == preset_rows(*old(conn)),
            preset_setting_rows(*conn) == preset_setting_rows(*old(conn)),
            tx_preset_rows(*conn) == tx_preset_rows(*old(conn)),
            tx_preset_setting_rows(*conn) == tx_preset_setting_rows(*old(conn)),
            tx_catalog_rows(*conn) == tx_catalog_rows(*old(conn)),
            catalog_rows(*conn) == catalog_rows(*old(conn)).union_prefer_right(
                catalog_cmap(rows.subrange(0, i as int)),
            ),
        decreases n - i,
    {
        let s = &settings[i];
        let tag = value_type_tag(&s.value_type);
        let possible = value_type_possible(&s.value_type);
        match upsert_catalog_row(
            conn,
            s.section.as_str(),
            s.name.as_str(),
            s.description.as_str(),
            tag,
            s.default_value.as_str(),
            &s.min_value,
            &s.max_value,
            s.impact.as_str(),
            &possible,
        ) {
            Ok(_) => {
                proof {
                    assert(rows.subrange(0, i + 1).drop_last() =~= rows.subrange(0, i as int));
                    assert(rows.subrange(0, i + 1).last() == rows[i as int]);
                    assert(rows[i as int] == s.deep_view());
                    assert(catalog_rows(*old(conn)).union_prefer_right(
                        catalog_cmap(rows.subrange(0, i as int)),
                    ).insert(
                        (s.section@, s.name@),
                        setting_columns(s.deep_view()),
                    ) =~= catalog_rows(*old(conn)).union_prefer_right(
                        catalog_cmap(rows.subrange(0, i + 1)),
                    ));
                }
            },
            Err(e) => {
                return Err(DbError::Sqlite(e));
            },
        }
        i += 1;
    }
    proof {
        assert(rows.subrange(0, n as int) =~= rows);
    }
    Ok(())
}

/// Upserts a list of settings into the catalog, in one transaction; on
/// an error the transaction is rolled back and every table is exactly as
/// before the call.
pub fn apply_unit(conn: &mut rusqlite::Connection, settings: &Vec<Setting>) -> (r: Result<
    (),
    DbError,
>)
    ensures
        match r {
            Ok(_) => {
                &&& catalog_rows(*final(conn)) == catalog_rows(*old(conn)).union_prefer_right(
                    catalog_cmap(settings.deep_view()),
                )
                &&& preset_rows(*final(conn)) == preset_rows(*old(conn))
                &&& preset_setting_rows(*final(conn)) == preset_setting_rows(*old(conn))
            },
            Err(_) => {
                &&& preset_rows(*final(conn)) == preset_rows(*old(conn))
                &&& preset_setting_rows(*final(conn)) == preset_setting_rows(*old(conn))
                &&& catalog_rows(*final(conn)) == catalog_rows(*old(conn))
            },
        },
{
    if let Err(e) = begin_transaction(conn) {
        return Err(e);
    }
    match apply_unit_rows(conn, settings) {
        Ok(_) => {
            if let Err(e) = commit_transaction(conn) {
                rollback_transaction(conn);
                return Err(e);
            }
            Ok(())
        },
        Err(e) => {
            rollback_transaction(conn);
            Err(e)
        },
    }
}

/// Every row of every migration unit, in the order the units run.
pub open spec fn full_catalog() -> Seq<SettingView> {
    rendering_thread::rows() + error_handling::rows() + streaming_settings::rows()
        + renderer_settings::rows() + input_settings::rows() + core_system::rows()
        + texture_streaming::rows() + engine::rows() + shader_compiler::rows()
        + garbage_collection::rows()
}

/// The catalog a store holds after the migrations ran on it.
pub open spec fn migrated(m: Map<(Seq<char>, Seq<char>), CatalogRowV>) -> Map<
    (Seq<char>, Seq<char>),
    CatalogRowV,
> {
    m.union_prefer_right(catalog_cmap(full_catalog()))
}

/// Creates the catalog table where it is missing and runs every
/// migration unit, all in one transaction: presets are not touched, and
/// on an error every table is exactly as before the call.
pub fn run_migrations(conn: &mut rusqlite::Connection) -> (r: Result<(), DbError>)
    ensures
        match r {
            Ok(_) => {
                &&& catalog_rows(*final(conn)) == migrated(catalog_rows(*old(conn)))
                &&& preset_rows(*final(conn)) == preset_rows(*old(conn))
                &&& preset_setting_rows(*final(conn)) == preset_setting_rows(*old(conn))
            },
            Err(_) => {
                &&& preset_rows(*final(conn)) == preset_rows(*old(conn))
                &&& preset_setting_rows(*final(conn)) == preset_setting_rows(*old(conn))
                &&& catalog_rows(*final(conn)) == catalog_rows(*old(conn))
            },
        },
{
    if let Err(e) = begin_transaction(conn) {
        return Err(e);
    }
    if let Err(e) = create_catalog_table(conn) {
        rollback_transaction(conn);
        return Err(DbError::Sqlite(e));
    }
    if let Err(e) = apply_unit_rows(conn, &rendering_thread::unit_settings()) {
        rollback_transaction(conn);
        return Err(e);
    }
    if let Err(e) = apply_unit_rows(conn, &error_handling::unit_settings()) {
        rollback_transaction(conn);
        return Err(e);
    }
    if let Err(e) = apply_unit_rows(conn, &streaming_settings::unit_settings()) {
        rollback_transaction(conn);
        return Err(e);
    }
    if let Err(e) = apply_unit_rows(conn, &renderer_settings::unit_settings()) {
        rollback_transaction(conn);
        return Err(e);
    }
    if let Err(e) = apply_unit_rows(conn, &input_settings::unit_settings()) {
        rollback_transaction(conn);
        return Err(e);
    }
    if let Err(e) = apply_unit_rows(conn, &core_system::unit_settings()) {
        rollback_transaction(conn);
        return Err(e);
    }
    if let Err(e) = apply_unit_rows(conn, &texture_streaming::unit_settings()) {
        rollback_transaction(conn);
        return Err(e);
    }
    if let Err(e) = apply_unit_rows(conn, &engine::unit_settings()) {
        rollback_transaction(conn);
        return Err(e);
    }
    if let Err(e) = apply_unit_rows(conn, &shader_compiler::unit_settings()) {
        rollback_transaction(conn);
        return Err(e);
    }
    if let Err(e) = apply_unit_rows(conn, &garbage_collection::unit_settings()) {
        rollback_transaction(conn);
        return Err(e);
    }
    if let Err(e) = commit_transaction(conn) {
        rollback_transaction(conn);
        return Err(e);
    }
    proof {
        let m0 = catalog_rows(*old(conn));
        let f1 = rendering_thread::rows();
        let f2 = error_handling::rows();
        let f3 = streaming_settings::rows();
        let f4 = renderer_settings::rows();
        let f5 = input_settings::rows();
        let f6 = core_system::rows();
        let f7 = texture_streaming::rows();
        let f8 = engine::rows();
        let f9 = shader_compiler::rows();
        let f10 = garbage_collection::rows();
        lemma_cmap_append(f1, f2);
        lemma_cmap_append(f1 + f2, f3);
        lemma_cmap_append(f1 + f2 + f3, f4);
        lemma_cmap_append(f1 + f2 + f3 + f4, f5);
        lemma_cmap_append(f1 + f2 + f3 + f4 + f5, f6);
        lemma_cmap_append(f1 + f2 + f3 + f4 + f5 + f6, f7);
        lemma_cmap_append(f1 + f2 + f3 + f4 + f5 + f6 + f7, f8);
        lemma_cmap_append(f1 + f2 + f3 + f4 + f5 + f6 + f7 + f8, f9);
        lemma_cmap_append(f1 + f2 + f3 + f4 + f5 + f6 + f7 + f8 + f9, f10);
        assert(catalog_rows(*conn) =~= migrated(m0));
    }
    Ok(())
}

/// Running the migrations twice leaves the same catalog rows, in count
/// and in content, as running them once: a second run over any store
/// changes nothing.
pub proof fn lemma_migrations_idempotent(m: Map<(Seq<char>, Seq<char>), CatalogRowV>)
    ensures
        migrated(migrated(m)) == migrated(m),
{
    assert(migrated(migrated(m)) =~= migrated(m));
}


/// The integer defaults the catalog uses are 64-bit integer literals.
proof fn lemma_integer_defaults_valid()
    ensures
        is_i64_literal("0"@),
        is_i64_literal("1"@),
        is_i64_literal("3"@),
        is_i64_literal("4"@),
        is_i64_literal("50"@),
        is_i64_literal("500"@),
        is_i64_literal("4096"@),
{
    reveal_strlit("0");
    reveal_strlit("1");
    reveal_strlit("3");
    reveal_strlit("4");
    reveal_strlit("50");
    reveal_strlit("500");
    reveal_strlit("4096");
    reveal_with_fuel(digits_value, 6);
    assert(digits_value("0"@) == 0);
    assert(digits_value("1"@) == 1);
    assert(digits_value("3"@) == 3);
    assert(digits_value("4"@) == 4);
    assert(digits_value("50"@) == 50);
    assert(digits_value("500"@) == 500);
    assert(digits_value("4096"@) == 4096);
    assert(sign_stripped("0"@) == "0"@);
    assert(sign_stripped("1"@) == "1"@);
    assert(sign_stripped("3"@) == "3"@);
    assert(sign_stripped("4"@) == "4"@);
    assert(sign_stripped("50"@) == "50"@);
    assert(sign_stripped("500"@) == "500"@);
    assert(sign_stripped("4096"@) == "4096"@);
}

/// The floating-point defaults the catalog uses are 64-bit float
/// literals.
proof fn lemma_float_defaults_valid()
    ensures
        is_f64_literal("0"@),
        is_f64_literal("0.3"@),
{
    reveal_strlit("0");
    reveal_strlit("0.3");
    let z = "0"@;
    assert(sign_stripped(z) == z);
    assert(all_digits(z));
    assert(is_mantissa(z));
    let s = "0.3"@;
    assert(sign_stripped(s) == s);
    assert(s[1] == '.');
    assert(all_digits(s.subrange(0, 1)));
    assert(all_digits(s.subrange(2, 3)));
    assert(is_mantissa(s)) by {
        assert(0 <= 1 < s.len() && s[1] == '.' && s.len() > 1 && all_digits(s.subrange(0, 1))
            && all_digits(s.subrange(1int + 1, s.len() as int)));
    }
}

/// Both values of the True/False enumeration are valid for it.
proof fn lemma_true_false_valid()
    ensures
        spec_is_valid_value(ValueTypeView::Enum(true_false_options()), "True"@),
        spec_is_valid_value(ValueTypeView::Enum(true_false_options()), "False"@),
{
    let t = ValueTypeView::Enum(true_false_options());
    let opts = t->Enum_0;
    assert(opts[0] == "True"@);
    assert(opts[1] == "False"@);
    assert(exists|i: int| 0 <= i < opts.len() && opts[i] == "True"@) by {
        assert(opts[0] == "True"@);
    }
    assert(exists|i: int| 0 <= i < opts.len() && opts[i] == "False"@) by {
        assert(opts[1] == "False"@);
    }
    assert(spec_is_valid_value(t, "True"@));
    assert(spec_is_valid_value(t, "False"@));
}

proof fn lemma_rendering_thread_defaults_valid()
    ensures
        forall|j: int|
            0 <= j < rendering_thread::rows().len() ==> spec_is_valid_value(
                (#[trigger] rendering_thread::rows()[j]).value_type,
                rendering_thread::rows()[j].default_value,
            ),
{
    lemma_integer_defaults_valid();
    lemma_float_defaults_valid();
    lemma_true_false_valid();
    assert forall|j: int| 0 <= j < rendering_thread::rows().len() implies spec_is_valid_value(
        (#[trigger] rendering_thread::rows()[j]).value_type,
        rendering_thread::rows()[j].default_value,
    ) by {
        assert(spec_is_valid_value(rendering_thread::rows()[0].value_type, rendering_thread::rows()[0].default_value));
        assert(spec_is_valid_value(rendering_thread::rows()[1].value_type, rendering_thread::rows()[1].default_value));
    }
}

proof fn lemma_error_handling_defaults_valid()
    ensures
        forall|j: int|
            0 <= j < error_handling::rows().len() ==> spec_is_valid_value(
                (#[trigger] error_handling::rows()[j]).value_type,
                error_handling::rows()[j].default_value,
            ),
{
    lemma_integer_defaults_valid();
    lemma_float_defaults_valid();
    lemma_true_false_valid();
    assert forall|j: int| 0 <= j < error_handling::rows().len() implies spec_is_valid_value(
        (#[trigger] error_handling::rows()[j]).value_type,
        error_handling::rows()[j].default_value,
    ) by {
        assert(spec_is_valid_value(error_handling::rows()[0].value_type, error_handling::rows()[0].default_value));
        assert(spec_is_valid_value(error_handling::rows()[1].value_type, error_handling::rows()[1].default_value));
    }
}

proof fn lemma_streaming_settings_defaults_valid()
    ensures
        forall|j: int|
            0 <= j < streaming_settings::rows().len() ==> spec_is_valid_value(
                (#[trigger] streaming_settings::rows()[j]).value_type,
                streaming_settings::rows()[j].default_value,
            ),
{
    lemma_integer_defaults_valid();
    lemma_float_defaults_valid();
    lemma_true_false_valid();
    assert forall|j: int| 0 <= j < streaming_settings::rows().len() implies spec_is_valid_value(
        (#[trigger] streaming_settings::rows()[j]).value_type,
        streaming_settings::rows()[j].default_value,
    ) by {
        assert(spec_is_valid_value(streaming_settings::rows()[0].value_type, streaming_settings::rows()[0].default_value));
        assert(spec_is_valid_value(streaming_settings::rows()[1].value_type, streaming_settings::rows()[1].default_value));
        assert(spec_is_valid_value(streaming_settings::rows()[2].value_type, streaming_settings::rows()[2].default_value));
        assert(spec_is_valid_value(streaming_settings::rows()[3].value_type, streaming_settings::rows()[3].default_value));
        assert(spec_is_valid_value(streaming_settings::rows()[4].value_type, streaming_settings::rows()[4].default_value));
    }
}

proof fn lemma_renderer_settings_defaults_valid()
    ensures
        forall|j: int|
            0 <= j < renderer_settings::rows().len() ==> spec_is_valid_value(
                (#[trigger] renderer_settings::rows()[j]).value_type,
                renderer_settings::rows()[j].default_value,
            ),
{
    lemma_integer_defaults_valid();
    lemma_float_defaults_valid();
    lemma_true_false_valid();
    assert forall|j: int| 0 <= j < renderer_settings::rows().len() implies spec_is_valid_value(
        (#[trigger] renderer_settings::rows()[j]).value_type,
        renderer_settings::rows()[j].default_value,
    ) by {
        assert(spec_is_valid_value(renderer_settings::rows()[0].value_type, renderer_settings::rows()[0].default_value));
        assert(spec_is_valid_value(renderer_settings::rows()[1].value_type, renderer_settings::rows()[1].default_value));
        assert(spec_is_valid_value(renderer_settings::rows()[2].value_type, renderer_settings::rows()[2].default_value));
        assert(spec_is_valid_value(renderer_settings::rows()[3].value_type, renderer_settings::rows()[3].default_value));
        assert(spec_is_valid_value(renderer_settings::rows()[4].value_type, renderer_settings::rows()[4].default_value));
        assert(spec_is_valid_value(renderer_settings::rows()[5].value_type, renderer_settings::rows()[5].default_value));
    }
}

proof fn lemma_input_settings_defaults_valid()
    ensures
        forall|j: int|
            0 <= j < input_settings::rows().len() ==> spec_is_valid_value(
                (#[trigger] input_settings::rows()[j]).value_type,
                input_settings::rows()[j].default_value,
            ),
{
    lemma_integer_defaults_valid();
    lemma_float_defaults_valid();
    lemma_true_false_valid();
    assert forall|j: int| 0 <= j < input_settings::rows().len() implies spec_is_valid_value(
        (#[trigger] input_settings::rows()[j]).value_type,
        input_settings::rows()[j].default_value,
    ) by {
        assert(spec_is_valid_value(input_settings::rows()[0].value_type, input_settings::rows()[0].default_value));
        assert(spec_is_valid_value(input_settings::rows()[1].value_type, input_settings::rows()[1].default_value));
        assert(spec_is_valid_value(input_settings::rows()[2].value_type, input_settings::rows()[2].default_value));
    }
}

proof fn lemma_core_system_defaults_valid()
    ensures
        forall|j: int|
            0 <= j < core_system::rows().len() ==> spec_is_valid_value(
                (#[trigger] core_system::rows()[j]).value_type,
                core_system::rows()[j].default_value,
            ),
{
    lemma_integer_defaults_valid();
    lemma_float_defaults_valid();
    lemma_true_false_valid();
    assert forall|j: int| 0 <= j < core_system::rows().len() implies spec_is_valid_value(
        (#[trigger] core_system::rows()[j]).value_type,
        core_system::rows()[j].default_value,
    ) by {
        assert(spec_is_valid_value(core_system::rows()[0].value_type, core_system::rows()[0].default_value));
        assert(spec_is_valid_value(core_system::rows()[1].value_type, core_system::rows()[1].default_value));
        assert(spec_is_valid_value(core_system::rows()[2].value_type, core_system::rows()[2].default_value));
        assert(spec_is_valid_value(core_system::rows()[3].value_type, core_system::rows()[3].default_value));
        assert(spec_is_valid_value(core_system::rows()[4].value_type, core_system::rows()[4].default_value));
    }
}

proof fn lemma_texture_streaming_defaults_valid()
    ensures
        forall|j: int|
            0 <= j < texture_streaming::rows().len() ==> spec_is_valid_value(
                (#[trigger] texture_streaming::rows()[j]).value_type,
                texture_streaming::rows()[j].default_value,
            ),
{
    lemma_integer_defaults_valid();
    lemma_float_defaults_valid();
    lemma_true_false_valid();
    assert forall|j: int| 0 <= j < texture_streaming::rows().len() implies spec_is_valid_value(
        (#[trigger] texture_streaming::rows()[j]).value_type,
        texture_streaming::rows()[j].default_value,
    ) by {
        assert(spec_is_valid_value(texture_streaming::rows()[0].value_type, texture_streaming::rows()[0].default_value));
        assert(spec_is_valid_value(texture_streaming::rows()[1].value_type, texture_streaming::rows()[1].default_value));
        assert(spec_is_valid_value(texture_streaming::rows()[2].value_type, texture_streaming::rows()[2].default_value));
        assert(spec_is_valid_value(texture_streaming::rows()[3].value_type, texture_streaming::rows()[3].default_value));
        assert(spec_is_valid_value(texture_streaming::rows()[4].value_type, texture_streaming::rows()[4].default_value));
    }
}

proof fn lemma_engine_defaults_valid()
    ensures
        forall|j: int|
            0 <= j < engine::rows().len() ==> spec_is_valid_value(
                (#[trigger] engine::rows()[j]).value_type,
                engine::rows()[j].default_value,
            ),
{
    lemma_integer_defaults_valid();
    lemma_float_defaults_valid();
    lemma_true_false_valid();
    assert forall|j: int| 0 <= j < engine::rows().len() implies spec_is_valid_value(
        (#[trigger] engine::rows()[j]).value_type,
        engine::rows()[j].default_value,
    ) by {
        assert(spec_is_valid_value(engine::rows()[0].value_type, engine::rows()[0].default_value));
    }
}

proof fn lemma_shader_compiler_defaults_valid()
    ensures
        forall|j: int|
            0 <= j < shader_compiler::rows().len() ==> spec_is_valid_value(
                (#[trigger] shader_compiler::rows()[j]).value_type,
                shader_compiler::rows()[j].default_value,
            ),
{
    lemma_integer_defaults_valid();
    lemma_float_defaults_valid();
    lemma_true_false_valid();
    assert forall|j: int| 0 <= j < shader_compiler::rows().len() implies spec_is_valid_value(
        (#[trigger] shader_compiler::rows()[j]).value_type,
        shader_compiler::rows()[j].default_value,
    ) by {
        assert(spec_is_valid_value(shader_compiler::rows()[0].value_type, shader_compiler::rows()[0].default_value));
        assert(spec_is_valid_value(shader_compiler::rows()[1].value_type, shader_compiler::rows()[1].default_value));
        assert(spec_is_valid_value(shader_compiler::rows()[2].value_type, shader_compiler::rows()[2].default_value));
        assert(spec_is_valid_value(shader_compiler::rows()[3].value_type, shader_compiler::rows()[3].default_value));
        assert(spec_is_valid_value(shader_compiler::rows()[4].value_type, shader_compiler::rows()[4].default_value));
        assert(spec_is_valid_value(shader_compiler::rows()[5].value_type, shader_compiler::rows()[5].default_value));
        assert(spec_is_valid_value(shader_compiler::rows()[6].value_type, shader_compiler::rows()[6].default_value));
    }
}

proof fn lemma_garbage_collection_defaults_valid()
    ensures
        forall|j: int|
            0 <= j < garbage_collection::rows().len() ==> spec_is_valid_value(
                (#[trigger] garbage_collection::rows()[j]).value_type,
                garbage_collection::rows()[j].default_value,
            ),
{
    lemma_integer_defaults_valid();
    lemma_float_defaults_valid();
    lemma_true_false_valid();
    assert forall|j: int| 0 <= j < garbage_collection::rows().len() implies spec_is_valid_value(
        (#[trigger] garbage_collection::rows()[j]).value_type,
        garbage_collection::rows()[j].default_value,
    ) by {
        assert(spec_is_valid_value(garbage_collection::rows()[0].value_type, garbage_collection::rows()[0].default_value));
    }
}

/// Catalog self-consistency: every setting the migrations write has a
/// default value that is valid for its own value type.
#[verifier::rlimit(60)]
pub proof fn lemma_catalog_defaults_valid()
    ensures
        forall|i: int|
            0 <= i < full_catalog().len() ==> spec_is_valid_value(
                (#[trigger] full_catalog()[i]).value_type,
                full_catalog()[i].default_value,
            ),
{
    lemma_rendering_thread_defaults_valid();
    lemma_error_handling_defaults_valid();
    lemma_streaming_settings_defaults_valid();
    lemma_renderer_settings_defaults_valid();
    lemma_input_settings_defaults_valid();
    lemma_core_system_defaults_valid();
    lemma_texture_streaming_defaults_valid();
    lemma_engine_defaults_valid();
    lemma_shader_compiler_defaults_valid();
    lemma_garbage_collection_defaults_valid();
    assert forall|i: int| 0 <= i < full_catalog().len() implies spec_is_valid_value(
        (#[trigger] full_catalog()[i]).value_type,
        full_catalog()[i].default_value,
    ) by {
        if 0 <= i < 2 {
            assert(full_catalog()[i] == rendering_thread::rows()[i - 0]);
        }
        if 2 <= i < 4 {
            assert(full_catalog()[i] == error_handling::rows()[i - 2]);
        }
        if 4 <= i < 9 {
            assert(full_catalog()[i] == streaming_settings::rows()[i - 4]);
        }
        if 9 <= i < 15 {
            assert(full_catalog()[i] == renderer_settings::rows()[i - 9]);
        }
        if 15 <= i < 18 {
            assert(full_catalog()[i] == input_settings::rows()[i - 15]);
        }
        if 18 <= i < 23 {
            assert(full_catalog()[i] == core_system::rows()[i - 18]);
        }
        if 23 <= i < 28 {
            assert(full_catalog()[i] == texture_streaming::rows()[i - 23]);
        }
        if 28 <= i < 29 {
            assert(full_catalog()[i] == engine::rows()[i - 28]);
        }
        if 29 <= i < 36 {
            assert(full_catalog()[i] == shader_compiler::rows()[i - 29]);
        }
        if 36 <= i < 37 {
            assert(full_catalog()[i] == garbage_collection::rows()[i - 36]);
        }
    }
}

} // verus!
