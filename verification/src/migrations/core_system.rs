//! The catalog rows of the `Core.System` section.

use vstd::prelude::*;
use crate::models::{Setting, SettingValueType, SettingView, ValueTypeView};
use crate::db::DbError;
use crate::db::catalog_rows;
use crate::db::preset_rows;
use crate::db::preset_setting_rows;
use crate::migrations::{row_view, mk_setting, bool_enum, catalog_cmap, apply_unit, true_false_options};

verus! {

/// The rows this migration unit contributes.
pub open spec fn rows() -> Seq<SettingView> {
    seq![
        row_view(
            "Core.System"@,
            "r.XGEShaderCompile"@,
            "Enables XGE shader compilation for distributed shader compilation"@,
            ValueTypeView::Boolean,
            "1"@,
            Option::None,
            Option::None,
            "Performance"@,
        ),
        row_view(
            "Core.System"@,
            "r.XGEShaderCompile.Mode"@,
            "Mode for XGE shader compilation (1=Local, 2=Distributed, 3=Auto)"@,
            ValueTypeView::Integer,
            "3"@,
            Some("1"@),
            Some("3"@),
            "Performance"@,
        ),
        row_view(
            "Core.System"@,
            "r.IoDispatcher.CacheSize"@,
            "Size of IO dispatcher cache in MB"@,
            ValueTypeView::Integer,
            "4096"@,
            Some("1024"@),
            Some("8192"@),
            "Performance"@,
        ),
        row_view(
            "Core.System"@,
            "r.IoDispatcher.AsyncBatchReadSizeKB"@,
            "Size of asynchronous batch reads in KB"@,
            ValueTypeView::Integer,
            "4096"@,
            Some("1024"@),
            Some("8192"@),
            "Performance"@,
        ),
        row_view(
            "Core.System"@,
            "+Suppress"@,
            "Suppresses specific log categories (Scriptwarning, Error, Scriptlog, Warning)"@,
            ValueTypeView::String,
            "Scriptwarning"@,
            Option::None,
            Option::None,
            "Debugging"@,
        ),
    ]
}

/// The settings this migration unit contributes.
pub fn unit_settings() -> (r: Vec<Setting>)
    ensures
        r.deep_view() =~= rows(),
{
    let mut v: Vec<Setting> = Vec::new();
    v.push(mk_setting(
        "Core.System",
        "r.XGEShaderCompile",
        "Enables XGE shader compilation for distributed shader compilation",
        SettingValueType::Boolean,
        "1",
        None,
        None,
        "Performance",
    ));
    v.push(mk_setting(
        "Core.System",
        "r.XGEShaderCompile.Mode",
        "Mode for XGE shader compilation (1=Local, 2=Distributed, 3=Auto)",
        SettingValueType::Integer,
        "3",
        Some("1"),
        Some("3"),
        "Performance",
    ));
    v.push(mk_setting(
        "Core.System",
        "r.IoDispatcher.CacheSize",
        "Size of IO dispatcher cache in MB",
        SettingValueType::Integer,
        "4096",
        Some("1024"),
        Some("8192"),
        "Performance",
    ));
    v.push(mk_setting(
        "Core.System",
        "r.IoDispatcher.AsyncBatchReadSizeKB",
        "Size of asynchronous batch reads in KB",
        SettingValueType::Integer,
        "4096",
        Some("1024"),
        Some("8192"),
        "Performance",
    ));
    v.push(mk_setting(
        "Core.System",
        "+Suppress",
        "Suppresses specific log categories (Scriptwarning, Error, Scriptlog, Warning)",
        SettingValueType::String,
        "Scriptwarning",
        None,
        None,
        "Debugging",
    ));
    proof {
        assert(v.deep_view() =~= rows());
    }
    v
}

/// Upserts this unit's rows into the catalog, in one transaction; on an
/// error every table is exactly as before the call.
pub fn migrate(conn: &mut rusqlite::Connection) -> (r: Result<(), DbError>)
    ensures
        match r {
            Ok(_) => {
                &&& catalog_rows(*final(conn)) == catalog_rows(*old(conn)).union_prefer_right(
                    catalog_cmap(rows()),
                )
                &&& preset_rows(*final(conn)) == preset_rows(*old(conn))
                &&& preset_setting_rows(*final(conn)) == preset_setting_rows(*old(conn))
            },
            Err(_) => {
                &&& preset_rows(*final(conn)) == preset_rows(*old(conn))
                &&& preset_setting_rows(*final(conn)) == preset_setting_rows(*old(conn))
                &&& catalog_rows(*final(conn)) == catalog_rows(*old(conn))
            },
        },
{
    let settings = unit_settings();
    apply_unit(conn, &settings)
}

} // verus!
