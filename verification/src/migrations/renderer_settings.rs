//! The catalog rows of the `Engine.RendererSettings` section.

use vstd::prelude::*;
use crate::models::{Setting, SettingValueType, SettingView, ValueTypeView};
use crate::db::DbError;
use crate::db::catalog_rows;
use crate::db::preset_rows;
use crate::db::preset_setting_rows;
use crate::migrations::{row_view, mk_setting, bool_enum, catalog_cmap, apply_unit, true_false_options};

verus! {

/// The rows this migration unit contributes.
pub open spec fn rows() -> Seq<SettingView> {
    seq![
        row_view(
            "Engine.RendererSettings"@,
            "r.AsyncCreateLightPrimitiveInteractions"@,
            "Enables asynchronous creation of light primitive interactions for improved performance"@,
            ValueTypeView::Boolean,
            "1"@,
            Option::None,
            Option::None,
            "Performance"@,
        ),
        row_view(
            "Engine.RendererSettings"@,
            "r.RDG.AsyncCompute"@,
            "Enables asynchronous compute for Render Dependency Graph"@,
            ValueTypeView::Boolean,
            "1"@,
            Option::None,
            Option::None,
            "Performance"@,
        ),
        row_view(
            "Engine.RendererSettings"@,
            "r.AsyncPipelineCompile"@,
            "Enables asynchronous pipeline compilation for improved loading times"@,
            ValueTypeView::Boolean,
            "1"@,
            Option::None,
            Option::None,
            "Performance"@,
        ),
        row_view(
            "Engine.RendererSettings"@,
            "r.AmbientOcclusion.AsyncComputeBudget"@,
            "Budget for asynchronous compute of ambient occlusion"@,
            ValueTypeView::Integer,
            "1"@,
            Some("0"@),
            Some("2"@),
            "Performance"@,
        ),
        row_view(
            "Engine.RendererSettings"@,
            "r.EnableAsyncComputeVolumetricFog"@,
            "Enables asynchronous compute for volumetric fog"@,
            ValueTypeView::Boolean,
            "1"@,
            Option::None,
            Option::None,
            "Performance"@,
        ),
        row_view(
            "Engine.RendererSettings"@,
            "r.Streaming.UseAsyncRequestsForDDC"@,
            "Enables asynchronous requests for Derived Data Cache"@,
            ValueTypeView::Boolean,
            "1"@,
            Option::None,
            Option::None,
            "Performance"@,
        ),
    ]
}

/// The settings this migration unit contributes.
pub fn unit_settings() -> (r: Vec<Setting>)
    ensures
        r.deep_view() =~= rows(),
{
    let mut v: Vec<Setting> = Vec::new();
    v.push(mk_setting(
        "Engine.RendererSettings",
        "r.AsyncCreateLightPrimitiveInteractions",
        "Enables asynchronous creation of light primitive interactions for improved performance",
        SettingValueType::Boolean,
        "1",
        None,
        None,
        "Performance",
    ));
    v.push(mk_setting(
        "Engine.RendererSettings",
        "r.RDG.AsyncCompute",
        "Enables asynchronous compute for Render Dependency Graph",
        SettingValueType::Boolean,
        "1",
        None,
        None,
        "Performance",
    ));
    v.push(mk_setting(
        "Engine.RendererSettings",
        "r.AsyncPipelineCompile",
        "Enables asynchronous pipeline compilation for improved loading times",
        SettingValueType::Boolean,
        "1",
        None,
        None,
        "Performance",
    ));
    v.push(mk_setting(
        "Engine.RendererSettings",
        "r.AmbientOcclusion.AsyncComputeBudget",
        "Budget for asynchronous compute of ambient occlusion",
        SettingValueType::Integer,
        "1",
        Some("0"),
        Some("2"),
        "Performance",
    ));
    v.push(mk_setting(
        "Engine.RendererSettings",
        "r.EnableAsyncComputeVolumetricFog",
        "Enables asynchronous compute for volumetric fog",
        SettingValueType::Boolean,
        "1",
        None,
        None,
        "Performance",
    ));
    v.push(mk_setting(
        "Engine.RendererSettings",
        "r.Streaming.UseAsyncRequestsForDDC",
        "Enables asynchronous requests for Derived Data Cache",
        SettingValueType::Boolean,
        "1",
        None,
        None,
        "Performance",
    ));
    proof {
        assert(v.deep_view() =~= rows());
    }
    v
}

/// Upserts this unit's rows into the catalog, in one transaction; on an
/// error every table is exactly as before the call.
pub fn migrate(conn: &mut rusqlite::Connection) -> (r: Result<(), DbError>)
    ensures
        match r {
            Ok(_) => {
                &&& catalog_rows(*final(conn)) == catalog_rows(*old(conn)).union_prefer_right(
                    catalog_cmap(rows()),
                )
                &&& preset_rows(*final(conn)) == preset_rows(*old(conn))
                &&& preset_setting_rows(*final(conn)) == preset_setting_rows(*old(conn))
            },
            Err(_) => {
                &&& preset_rows(*final(conn)) == preset_rows(*old(conn))
                &&& preset_setting_rows(*final(conn)) == preset_setting_rows(*old(conn))
                &&& catalog_rows(*final(conn)) == catalog_rows(*old(conn))
            },
        },
{
    let settings = unit_settings();
    apply_unit(conn, &settings)
}

} // verus!
