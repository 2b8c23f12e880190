//! The catalog rows of the `TextureStreaming` section.

use vstd::prelude::*;
use crate::models::{Setting, SettingValueType, SettingView, ValueTypeView};
use crate::db::DbError;
use crate::db::catalog_rows;
use crate::db::preset_rows;
use crate::db::preset_setting_rows;
use crate::migrations::{row_view, mk_setting, bool_enum, catalog_cmap, apply_unit, true_false_options};

verus! {

/// The rows this migration unit contributes.
pub open spec fn rows() -> Seq<SettingView> {
    seq![
        row_view(
            "TextureStreaming"@,
            "r.TextureStreaming"@,
            "Enables texture streaming for improved memory usage"@,
            ValueTypeView::Boolean,
            "1"@,
            Option::None,
            Option::None,
            "Performance"@,
        ),
        row_view(
            "TextureStreaming"@,
            "r.Streaming.FullyLoadUsedTextures"@,
            "Fully loads used textures for improved visual quality"@,
            ValueTypeView::Boolean,
            "1"@,
            Option::None,
            Option::None,
            "Visual Quality"@,
        ),
        row_view(
            "TextureStreaming"@,
            "r.Streaming.FullyLoadUsedTextures_Always"@,
            "Always fully loads used textures, even during performance-critical moments"@,
            ValueTypeView::Boolean,
            "1"@,
            Option::None,
            Option::None,
            "Visual Quality"@,
        ),
        row_view(
            "TextureStreaming"@,
            "r.Streaming.DefragDynamicBounds"@,
            "Enables defragmentation of dynamic texture streaming bounds for improved memory usage"@,
            ValueTypeView::Boolean,
            "1"@,
            Option::None,
            Option::None,
            "Performance"@,
        ),
        row_view(
            "TextureStreaming"@,
            "r.Streaming.FramesForFullUpdate"@,
            "Number of frames between full texture streaming updates"@,
            ValueTypeView::Integer,
            "1"@,
            Some("1"@),
            Some("10"@),
            "Performance"@,
        ),
    ]
}

/// The settings this migration unit contributes.
pub fn unit_settings() -> (r: Vec<Setting>)
    ensures
        r.deep_view() =~= rows(),
{
    let mut v: Vec<Setting> = Vec::new();
    v.push(mk_setting(
        "TextureStreaming",
        "r.TextureStreaming",
        "Enables texture streaming for improved memory usage",
        SettingValueType::Boolean,
        "1",
        None,
        None,
        "Performance",
    ));
    v.push(mk_setting(
        "TextureStreaming",
        "r.Streaming.FullyLoadUsedTextures",
        "Fully loads used textures for improved visual quality",
        SettingValueType::Boolean,
        "1",
        None,
        None,
        "Visual Quality",
    ));
    v.push(mk_setting(
        "TextureStreaming",
        "r.Streaming.FullyLoadUsedTextures_Always",
        "Always fully loads used textures, even during performance-critical moments",
        SettingValueType::Boolean,
        "1",
        None,
        None,
        "Visual Quality",
    ));
    v.push(mk_setting(
        "TextureStreaming",
        "r.Streaming.DefragDynamicBounds",
        "Enables defragmentation of dynamic texture streaming bounds for improved memory usage",
        SettingValueType::Boolean,
        "1",
        None,
        None,
        "Performance",
    ));
    v.push(mk_setting(
        "TextureStreaming",
        "r.Streaming.FramesForFullUpdate",
        "Number of frames between full texture streaming updates",
        SettingValueType::Integer,
        "1",
        Some("1"),
        Some("10"),
        "Performance",
    ));
    proof {
        assert(v.deep_view() =~= rows());
    }
    v
}

/// Upserts this unit's rows into the catalog, in one transaction; on an
/// error every table is exactly as before the call.
pub fn migrate(conn: &mut rusqlite::Connection) -> (r: Result<(), DbError>)
    ensures
        match r {
            Ok(_) => {
                &&& catalog_rows(*final(conn)) == catalog_rows(*old(conn)).union_prefer_right(
                    catalog_cmap(rows()),
                )
                &&& preset_rows(*final(conn)) == preset_rows(*old(conn))
                &&& preset_setting_rows(*final(conn)) == preset_setting_rows(*old(conn))
            },
            Err(_) => {
                &&& preset_rows(*final(conn)) == preset_rows(*old(conn))
                &&& preset_setting_rows(*final(conn)) == preset_setting_rows(*old(conn))
                &&& catalog_rows(*final(conn)) == catalog_rows(*old(conn))
            },
        },
{
    let settings = unit_settings();
    apply_unit(conn, &settings)
}

} // verus!
