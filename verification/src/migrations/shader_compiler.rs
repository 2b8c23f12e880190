//! The catalog rows of the `ShaderCompiler` section.

use vstd::prelude::*;
use crate::models::{Setting, SettingValueType, SettingView, ValueTypeView};
use crate::db::DbError;
use crate::db::catalog_rows;
use crate::db::preset_rows;
use crate::db::preset_setting_rows;
use crate::migrations::{row_view, mk_setting, bool_enum, catalog_cmap, apply_unit, true_false_options};

verus! {

/// The rows this migration unit contributes.
pub open spec fn rows() -> Seq<SettingView> {
    seq![
        row_view(
            "ShaderCompiler"@,
            "bAllowAsynchronousShaderCompiling"@,
            "Enables asynchronous shader compilation for improved loading times"@,
            ValueTypeView::Enum(true_false_options()),
            "True"@,
            Option::None,
            Option::None,
            "Performance"@,
        ),
        row_view(
            "ShaderCompiler"@,
            "bAllowCompilingThroughWorkerThreads"@,
            "Enables shader compilation through worker threads for improved performance"@,
            ValueTypeView::Enum(true_false_options()),
            "True"@,
            Option::None,
            Option::None,
            "Performance"@,
        ),
        row_view(
            "ShaderCompiler"@,
            "NumUnusedShaderCompilingThreads"@,
            "Number of unused shader compiling threads. Higher values improve compilation speed but use more CPU resources"@,
            ValueTypeView::Integer,
            "1"@,
            Some("0"@),
            Some("16"@),
            "Performance"@,
        ),
        row_view(
            "ShaderCompiler"@,
            "bAsyncShaderCompileWorkerThreads"@,
            "Enables asynchronous shader compilation worker threads"@,
            ValueTypeView::Enum(true_false_options()),
            "True"@,
            Option::None,
            Option::None,
            "Performance"@,
        ),
        row_view(
            "ShaderCompiler"@,
            "bEnableOptimizedShaderCompilation"@,
            "Enables optimized shader compilation for improved performance"@,
            ValueTypeView::Enum(true_false_options()),
            "True"@,
            Option::None,
            Option::None,
            "Performance"@,
        ),
        row_view(
            "ShaderCompiler"@,
            "MaxShaderJobBatchSize"@,
            "Maximum size of shader job batches. Higher values improve throughput but may cause longer individual compilation times"@,
            ValueTypeView::Integer,
            "50"@,
            Some("10"@),
            Some("100"@),
            "Performance"@,
        ),
        row_view(
            "ShaderCompiler"@,
            "MaxShaderJobs"@,
            "Maximum number of shader jobs. Higher values allow more shaders to be compiled in parallel but use more memory"@,
            ValueTypeView::Integer,
            "500"@,
            Some("100"@),
            Some("1000"@),
            "Performance"@,
        ),
    ]
}

/// The settings this migration unit contributes.
pub fn unit_settings() -> (r: Vec<Setting>)
    ensures
        r.deep_view() =~= rows(),
{
    let mut v: Vec<Setting> = Vec::new();
    v.push(mk_setting(
        "ShaderCompiler",
        "bAllowAsynchronousShaderCompiling",
        "Enables asynchronous shader compilation for improved loading times",
        bool_enum(),
        "True",
        None,
        None,
        "Performance",
    ));
    v.push(mk_setting(
        "ShaderCompiler",
        "bAllowCompilingThroughWorkerThreads",
        "Enables shader compilation through worker threads for improved performance",
        bool_enum(),
        "True",
        None,
        None,
        "Performance",
    ));
    v.push(mk_setting(
        "ShaderCompiler",
        "NumUnusedShaderCompilingThreads",
        "Number of unused shader compiling threads. Higher values improve compilation speed but use more CPU resources",
        SettingValueType::Integer,
        "1",
        Some("0"),
        Some("16"),
        "Performance",
    ));
    v.push(mk_setting(
        "ShaderCompiler",
        "bAsyncShaderCompileWorkerThreads",
        "Enables asynchronous shader compilation worker threads",
        bool_enum(),
        "True",
        None,
        None,
        "Performance",
    ));
    v.push(mk_setting(
        "ShaderCompiler",
        "bEnableOptimizedShaderCompilation",
        "Enables optimized shader compilation for improved performance",
        bool_enum(),
        "True",
        None,
        None,
        "Performance",
    ));
    v.push(mk_setting(
        "ShaderCompiler",
        "MaxShaderJobBatchSize",
        "Maximum size of shader job batches. Higher values improve throughput but may cause longer individual compilation times",
        SettingValueType::Integer,
        "50",
        Some("10"),
        Some("100"),
        "Performance",
    ));
    v.push(mk_setting(
        "ShaderCompiler",
        "MaxShaderJobs",
        "Maximum number of shader jobs. Higher values allow more shaders to be compiled in parallel but use more memory",
        SettingValueType::Integer,
        "500",
        Some("100"),
        Some("1000"),
        "Performance",
    ));
    proof {
        assert(v.deep_view() =~= rows());
    }
    v
}

/// Upserts this unit's rows into the catalog, in one transaction; on an
/// error every table is exactly as before the call.
pub fn migrate(conn: &mut rusqlite::Connection) -> (r: Result<(), DbError>)
    ensures
        match r {
            Ok(_) => {
                &&& catalog_rows(*final(conn)) == catalog_rows(*old(conn)).union_prefer_right(
                    catalog_cmap(rows()),
                )
                &&& preset_rows(*final(conn)) == preset_rows(*old(conn))
                &&& preset_setting_rows(*final(conn)) == preset_setting_rows(*old(conn))
            },
            Err(_) => {
                &&& preset_rows(*final(conn)) == preset_rows(*old(conn))
                &&& preset_setting_rows(*final(conn)) == preset_setting_rows(*old(conn))
                &&& catalog_rows(*final(conn)) == catalog_rows(*old(conn))
            },
        },
{
    let settings = unit_settings();
    apply_unit(conn, &settings)
}

} // verus!
