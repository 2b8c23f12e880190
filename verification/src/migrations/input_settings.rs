//! The catalog rows of the `Engine.InputSettings` section.

use vstd::prelude::*;
use crate::models::{Setting, SettingValueType, SettingView, ValueTypeView};
use crate::db::DbError;
use crate::db::catalog_rows;
use crate::db::preset_rows;
use crate::db::preset_setting_rows;
use crate::migrations::{row_view, mk_setting, bool_enum, catalog_cmap, apply_unit, true_false_options};

verus! {

/// The rows this migration unit contributes.
pub open spec fn rows() -> Seq<SettingView> {
    seq![
        row_view(
            "Engine.InputSettings"@,
            "RawMouseInputEnabled"@,
            "Enables raw mouse input for more precise cursor movement"@,
            ValueTypeView::Boolean,
            "1"@,
            Option::None,
            Option::None,
            "Input"@,
        ),
        row_view(
            "Engine.InputSettings"@,
            "bEnableMouseSmoothing"@,
            "Enables mouse smoothing. Disabling provides more responsive but potentially less smooth cursor movement"@,
            ValueTypeView::Enum(true_false_options()),
            "False"@,
            Option::None,
            Option::None,
            "Input"@,
        ),
        row_view(
            "Engine.InputSettings"@,
            "bViewAccelerationEnabled"@,
            "Enables view acceleration for smoother camera movement"@,
            ValueTypeView::Enum(true_false_options()),
            "False"@,
            Option::None,
            Option::None,
            "Input"@,
        ),
    ]
}

/// The settings this migration unit contributes.
pub fn unit_settings() -> (r: Vec<Setting>)
    ensures
        r.deep_view() =~= rows(),
{
    let mut v: Vec<Setting> = Vec::new();
    v.push(mk_setting(
        "Engine.InputSettings",
        "RawMouseInputEnabled",
        "Enables raw mouse input for more precise cursor movement",
        SettingValueType::Boolean,
        "1",
        None,
        None,
        "Input",
    ));
    v.push(mk_setting(
        "Engine.InputSettings",
        "bEnableMouseSmoothing",
        "Enables mouse smoothing. Disabling provides more responsive but potentially less smooth cursor movement",
        bool_enum(),
        "False",
        None,
        None,
        "Input",
    ));
    v.push(mk_setting(
        "Engine.InputSettings",
        "bViewAccelerationEnabled",
        "Enables view acceleration for smoother camera movement",
        bool_enum(),
        "False",
        None,
        None,
        "Input",
    ));
    proof {
        assert(v.deep_view() =~= rows());
    }
    v
}

/// Upserts this unit's rows into the catalog, in one transaction; on an
/// error every table is exactly as before the call.
pub fn migrate(conn: &mut rusqlite::Connection) -> (r: Result<(), DbError>)
    ensures
        match r {
            Ok(_) => {
                &&& catalog_rows(*final(conn)) == catalog_rows(*old(conn)).union_prefer_right(
                    catalog_cmap(rows()),
                )
                &&& preset_rows(*final(conn)) == preset_rows(*old(conn))
                &&& preset_setting_rows(*final(conn)) == preset_setting_rows(*old(conn))
            },
            Err(_) => {
                &&& preset_rows(*final(conn)) == preset_rows(*old(conn))
                &&& preset_setting_rows(*final(conn)) == preset_setting_rows(*old(conn))
                &&& catalog_rows(*final(conn)) == catalog_rows(*old(conn))
            },
        },
{
    let settings = unit_settings();
    apply_unit(conn, &settings)
}

} // verus!
