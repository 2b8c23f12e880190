//! The catalog rows of the `/script/engine.streamingsettings` section.

use vstd::prelude::*;
use crate::models::{Setting, SettingValueType, SettingView, ValueTypeView};
use crate::db::DbError;
use crate::db::catalog_rows;
use crate::db::preset_rows;
use crate::db::preset_setting_rows;
use crate::migrations::{row_view, mk_setting, bool_enum, catalog_cmap, apply_unit, true_false_options};

verus! {

/// The rows this migration unit contributes.
pub open spec fn rows() -> Seq<SettingView> {
    seq![
        row_view(
            "/script/engine.streamingsettings"@,
            "s.AsyncLoadingThreadEnabled"@,
            "Enables asynchronous loading thread for improved streaming performance"@,
            ValueTypeView::Enum(true_false_options()),
            "True"@,
            Option::None,
            Option::None,
            "Performance"@,
        ),
        row_view(
            "/script/engine.streamingsettings"@,
            "s.AsyncLoadingUseFullTimeLimit"@,
            "Uses full time limit for asynchronous loading"@,
            ValueTypeView::Boolean,
            "1"@,
            Option::None,
            Option::None,
            "Performance"@,
        ),
        row_view(
            "/script/engine.streamingsettings"@,
            "s.MinBulkDataSizeForAsyncLoading"@,
            "Minimum size of bulk data for asynchronous loading"@,
            ValueTypeView::Integer,
            "0"@,
            Some("0"@),
            Some("1024"@),
            "Performance"@,
        ),
        row_view(
            "/script/engine.streamingsettings"@,
            "s.PriorityAsyncLoadingExtraTime"@,
            "Extra time for priority asynchronous loading"@,
            ValueTypeView::Float,
            "0"@,
            Some("0.0"@),
            Some("10.0"@),
            "Performance"@,
        ),
        row_view(
            "/script/engine.streamingsettings"@,
            "s.AsyncLoadingTimeLimit"@,
            "Time limit for asynchronous loading in milliseconds"@,
            ValueTypeView::Integer,
            "4"@,
            Some("1"@),
            Some("10"@),
            "Performance"@,
        ),
    ]
}

/// The settings this migration unit contributes.
pub fn unit_settings() -> (r: Vec<Setting>)
    ensures
        r.deep_view() =~= rows(),
{
    let mut v: Vec<Setting> = Vec::new();
    v.push(mk_setting(
        "/script/engine.streamingsettings",
        "s.AsyncLoadingThreadEnabled",
        "Enables asynchronous loading thread for improved streaming performance",
        bool_enum(),
        "True",
        None,
        None,
        "Performance",
    ));
    v.push(mk_setting(
        "/script/engine.streamingsettings",
        "s.AsyncLoadingUseFullTimeLimit",
        "Uses full time limit for asynchronous loading",
        SettingValueType::Boolean,
        "1",
        None,
        None,
        "Performance",
    ));
    v.push(mk_setting(
        "/script/engine.streamingsettings",
        "s.MinBulkDataSizeForAsyncLoading",
        "Minimum size of bulk data for asynchronous loading",
        SettingValueType::Integer,
        "0",
        Some("0"),
        Some("1024"),
        "Performance",
    ));
    v.push(mk_setting(
        "/script/engine.streamingsettings",
        "s.PriorityAsyncLoadingExtraTime",
        "Extra time for priority asynchronous loading",
        SettingValueType::Float,
        "0",
        Some("0.0"),
        Some("10.0"),
        "Performance",
    ));
    v.push(mk_setting(
        "/script/engine.streamingsettings",
        "s.AsyncLoadingTimeLimit",
        "Time limit for asynchronous loading in milliseconds",
        SettingValueType::Integer,
        "4",
        Some("1"),
        Some("10"),
        "Performance",
    ));
    proof {
        assert(v.deep_view() =~= rows());
    }
    v
}

/// Upserts this unit's rows into the catalog, in one transaction; on an
/// error every table is exactly as before the call.
pub fn migrate(conn: &mut rusqlite::Connection) -> (r: Result<(), DbError>)
    ensures
        match r {
            Ok(_) => {
                &&& catalog_rows(*final(conn)) == catalog_rows(*old(conn)).union_prefer_right(
                    catalog_cmap(rows()),
                )
                &&& preset_rows(*final(conn)) == preset_rows(*old(conn))
                &&& preset_setting_rows(*final(conn)) == preset_setting_rows(*old(conn))
            },
            Err(_) => {
                &&& preset_rows(*final(conn)) == preset_rows(*old(conn))
                &&& preset_setting_rows(*final(conn)) == preset_setting_rows(*old(conn))
                &&& catalog_rows(*final(conn)) == catalog_rows(*old(conn))
            },
        },
{
    let settings = unit_settings();
    apply_unit(conn, &settings)
}

} // verus!
