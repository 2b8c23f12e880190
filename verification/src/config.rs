//! Engine configuration operations: reading the live setting list out of
//! INI text, regenerating that text from a preset, capturing the live list
//! as a preset, applying a preset to the live list, and deriving the
//! recommended preset from the probed hardware.

use vstd::prelude::*;
use vstd::string::*;
use crate::models::{Setting, SettingValueType, SettingView, ValueTypeView, SettingsPreset,
    SystemInfo};
use crate::numeric::{is_i64_literal, is_f64_literal, is_valid_integer, is_valid_float,
    dec_digits, u64_to_string};
use crate::strutil::{str_eq, spec_join_key, join_key, pairs_to_map, distinct_keys, upsert_pair};
use crate::ini::{IniSections, DocView, wf_doc, doc_view, spec_parse_ini, spec_generate_ini,
    spec_flatten, spec_unflatten, parse_ini_file, generate_ini_file, flatten_for_presets,
    unflatten, lemma_doc_view_index};
use crate::system::{get_performance_tier, tier_label, spec_tier};
use crate::db::{DbError, preset_rows, preset_settings_of, get_all_presets, get_all_settings,
    save_setting, preset_matches_store};
use crate::clock::local_now_rfc3339;

verus! {

// ------------------------------------------------------------------
// Known settings and their metadata.
// ------------------------------------------------------------------

/// The value type inferred for an unknown key from its value's shape.
pub open spec fn infer_value_type(v: Seq<char>) -> ValueTypeView {
    if v == "0"@ || v == "1"@ || v == "True"@ || v == "False"@ {
        ValueTypeView::Boolean
    } else if is_i64_literal(v) {
        ValueTypeView::Integer
    } else if is_f64_literal(v) {
        ValueTypeView::Float
    } else {
        ValueTypeView::String
    }
}

/// Some setting of the list carries this (section, name) key.
pub open spec fn covers(out: Seq<Setting>, sec: Seq<char>, k: Seq<char>) -> bool {
    exists|t: int| 0 <= t < out.len() && #[trigger] crate::db::v_key(out[t]) == (sec, k)
}

/// A list that covers a key still covers it after a push.
proof fn lemma_covers_push(out: Seq<Setting>, s: Setting, sec: Seq<char>, k: Seq<char>)
    requires
        covers(out, sec, k),
    ensures
        covers(out.push(s), sec, k),
{
    let t = choose|t: int| 0 <= t < out.len() && #[trigger] crate::db::v_key(out[t]) == (sec, k);
    assert(crate::db::v_key(out.push(s)[t]) == (sec, k));
}

/// The preset is hydrated from the store under its own id.
pub open spec fn stored_ok(p: SettingsPreset, c: rusqlite::Connection) -> bool {
    match p.id {
        Some(pid) => preset_matches_store(p, c, pid),
        None => false,
    }
}

/// The setting built for one parsed key: known keys get their catalog
/// metadata, unknown ones an inferred type and a generic description; the
/// parsed value becomes both current and default value.
pub open spec fn spec_setting_with_description(
    section: Seq<char>,
    name: Seq<char>,
    value: Seq<char>,
) -> SettingView {
    let tf = ValueTypeView::Enum(crate::migrations::true_false_options());
    if section == "SystemSettings"@ && name == "r.PSOWarmup.WarmupMaterials"@ {
        crate::migrations::row_view(
            section,
            name,
            "Enable shader precompilation for materials"@,
            ValueTypeView::Boolean,
            value,
            Option::None,
            Option::None,
            "Loading Time"@,
        )
    } else if section == "SystemSettings"@ && name == "r.VSync"@ {
        crate::migrations::row_view(
            section,
            name,
            "Enable vertical sync to prevent screen tearing"@,
            ValueTypeView::Boolean,
            value,
            Option::None,
            Option::None,
            "Performance"@,
        )
    } else if section == "SystemSettings"@ && name == "r.Streaming.PoolSize"@ {
        crate::migrations::row_view(
            section,
            name,
            "Size of texture streaming pool in MB"@,
            ValueTypeView::Integer,
            value,
            Some("1024"@),
            Some("16384"@),
            "Visual Quality"@,
        )
    } else if section == "SystemSettings"@ && name == "r.TemporalAACurrentFrameWeight"@ {
        crate::migrations::row_view(
            section,
            name,
            "Weight of current frame in temporal AA"@,
            ValueTypeView::Float,
            value,
            Some("0.0"@),
            Some("1.0"@),
            "Visual Quality"@,
        )
    } else if section == "SystemSettings"@ && name == "r.TemporalAASamples"@ {
        crate::migrations::row_view(
            section,
            name,
            "Number of temporal AA samples"@,
            ValueTypeView::Integer,
            value,
            Some("4"@),
            Some("64"@),
            "Visual Quality"@,
        )
    } else if section == "SystemSettings"@ && name == "r.TemporalAASharpness"@ {
        crate::migrations::row_view(
            section,
            name,
            "Sharpness of temporal AA"@,
            ValueTypeView::Float,
            value,
            Some("0.0"@),
            Some("1.0"@),
            "Visual Quality"@,
        )
    } else if section == "SystemSettings"@ && name == "r.Tonemapper.Sharpen"@ {
        crate::migrations::row_view(
            section,
            name,
            "Sharpness of the tonemapper"@,
            ValueTypeView::Float,
            value,
            Some("0.0"@),
            Some("1.0"@),
            "Visual Quality"@,
        )
    } else if section == "SystemSettings"@ && name == "r.RHICmdBypass"@ {
        crate::migrations::row_view(
            section,
            name,
            "Bypass RHI command list"@,
            ValueTypeView::Boolean,
            value,
            Option::None,
            Option::None,
            "Performance"@,
        )
    } else if section == "SystemSettings"@ && name == "r.AllowMultiThreadedShaderCreation"@ {
        crate::migrations::row_view(
            section,
            name,
            "Allow multithreaded shader creation"@,
            ValueTypeView::Boolean,
            value,
            Option::None,
            Option::None,
            "Performance"@,
        )
    } else if section == "RenderingThread"@ && name == "bAllowThreadedRendering"@ {
        crate::migrations::row_view(
            section,
            name,
            "Allow threaded rendering"@,
            tf,
            value,
            Option::None,
            Option::None,
            "Performance"@,
        )
    } else if section == "RenderingThread"@ && name == "bAllowAsyncRenderThreadUpdates"@ {
        crate::migrations::row_view(
            section,
            name,
            "Allow async render thread updates"@,
            tf,
            value,
            Option::None,
            Option::None,
            "Performance"@,
        )
    } else if section == "Engine.InputSettings"@ && name == "RawMouseInputEnabled"@ {
        crate::migrations::row_view(
            section,
            name,
            "Enable raw mouse input"@,
            ValueTypeView::Integer,
            value,
            Option::None,
            Option::None,
            "Input"@,
        )
    } else if section == "Engine.InputSettings"@ && name == "bEnableMouseSmoothing"@ {
        crate::migrations::row_view(
            section,
            name,
            "Enable mouse smoothing"@,
            tf,
            value,
            Option::None,
            Option::None,
            "Input"@,
        )
    } else {
        crate::migrations::row_view(
            section,
            name,
            "Setting for "@ + name,
            infer_value_type(value),
            value,
            Option::None,
            Option::None,
            "Performance"@,
        )
    }
}

/// Builds the setting for one parsed key, with the metadata of a known
/// key or an inferred type and generic description for an unknown one.
pub fn create_setting_with_description(section: &str, name: &str, value: &str) -> (s: Setting)
    ensures
        s.deep_view() == spec_setting_with_description(section@, name@, value@),
{
    if str_eq(section, "SystemSettings") {
        if str_eq(name, "r.PSOWarmup.WarmupMaterials") {
            return crate::migrations::mk_setting(
                section,
                name,
                "Enable shader precompilation for materials",
                SettingValueType::Boolean,
                value,
                None,
                None,
                "Loading Time",
            );
        }
        if str_eq(name, "r.VSync") {
            return crate::migrations::mk_setting(
                section,
                name,
                "Enable vertical sync to prevent screen tearing",
                SettingValueType::Boolean,
                value,
                None,
                None,
                "Performance",
            );
        }
        if str_eq(name, "r.Streaming.PoolSize") {
            return crate::migrations::mk_setting(
                section,
                name,
                "Size of texture streaming pool in MB",
                SettingValueType::Integer,
                value,
                Some("1024"),
                Some("16384"),
                "Visual Quality",
            );
        }
        if str_eq(name, "r.TemporalAACurrentFrameWeight") {
            return crate::migrations::mk_setting(
                section,
                name,
                "Weight of current frame in temporal AA",
                SettingValueType::Float,
                value,
                Some("0.0"),
                Some("1.0"),
                "Visual Quality",
            );
        }
        if str_eq(name, "r.TemporalAASamples") {
            return crate::migrations::mk_setting(
                section,
                name,
                "Number of temporal AA samples",
                SettingValueType::Integer,
                value,
                Some("4"),
                Some("64"),
                "Visual Quality",
            );
        }
        if str_eq(name, "r.TemporalAASharpness") {
            return crate::migrations::mk_setting(
                section,
                name,
                "Sharpness of temporal AA",
                SettingValueType::Float,
                value,
                Some("0.0"),
                Some("1.0"),
                "Visual Quality",
            );
        }
        if str_eq(name, "r.Tonemapper.Sharpen") {
            return crate::migrations::mk_setting(
                section,
                name,
                "Sharpness of the tonemapper",
                SettingValueType::Float,
                value,
                Some("0.0"),
                Some("1.0"),
                "Visual Quality",
            );
        }
        if str_eq(name, "r.RHICmdBypass") {
            return crate::migrations::mk_setting(
                section,
                name,
                "Bypass RHI command list",
                SettingValueType::Boolean,
                value,
                None,
                None,
                "Performance",
            );
        }
        if str_eq(name, "r.AllowMultiThreadedShaderCreation") {
            return crate::migrations::mk_setting(
                section,
                name,
                "Allow multithreaded shader creation",
                SettingValueType::Boolean,
                value,
                None,
                None,
                "Performance",
            );
        }
    }
    if str_eq(section, "RenderingThread") {
        if str_eq(name, "bAllowThreadedRendering") {
            return crate::migrations::mk_setting(
                section,
                name,
                "Allow threaded rendering",
                crate::migrations::bool_enum(),
                value,
                None,
                None,
                "Performance",
            );
        }
        if str_eq(name, "bAllowAsyncRenderThreadUpdates") {
            return crate::migrations::mk_setting(
                section,
                name,
                "Allow async render thread updates",
                crate::migrations::bool_enum(),
                value,
                None,
                None,
                "Performance",
            );
        }
    }
    if str_eq(section, "Engine.InputSettings") {
        if str_eq(name, "RawMouseInputEnabled") {
            return crate::migrations::mk_setting(
                section,
                name,
                "Enable raw mouse input",
                SettingValueType::Integer,
                value,
                None,
                None,
                "Input",
            );
        }
        if str_eq(name, "bEnableMouseSmoothing") {
            return crate::migrations::mk_setting(
                section,
                name,
                "Enable mouse smoothing",
                crate::migrations::bool_enum(),
                value,
                None,
                None,
                "Input",
            );
        }
    }
    let value_type = if str_eq(value, "0") || str_eq(value, "1") || str_eq(value, "True") || str_eq(
        value,
        "False",
    ) {
        SettingValueType::Boolean
    } else if is_valid_integer(value) {
        SettingValueType::Integer
    } else if is_valid_float(value) {
        SettingValueType::Float
    } else {
        SettingValueType::String
    };
    let mut description = "Setting for ".to_owned();
    description.append(name);
    crate::migrations::mk_setting(
        section,
        name,
        description.as_str(),
        value_type,
        value,
        None,
        None,
        "Performance",
    )
}

/// The key stands at a position the document traversal has passed: a
/// section before the current one, or an earlier entry of the current
/// section.
pub open spec fn key_processed(key: (Seq<char>, Seq<char>), d: DocView, i: int, j: int) -> bool {
    exists|si: int, jj: int|
        #![trigger d[si].1[jj]]
        {
            &&& 0 <= si < d.len()
            &&& 0 <= jj < d[si].1.len()
            &&& (si < i || (si == i && jj < j))
            &&& key == (d[si].0, d[si].1[jj].0)
        }
}

/// A key once passed stays passed as the traversal moves on.
proof fn lemma_key_processed_mono(key: (Seq<char>, Seq<char>), d: DocView, i: int, j: int, i2: int, j2: int)
    requires
        key_processed(key, d, i, j),
        i < i2 || (i == i2 && j <= j2),
    ensures
        key_processed(key, d, i2, j2),
{
}

/// Distinct positions of a well-formed document carry distinct
/// (section, name) keys.
proof fn lemma_doc_keys_injective(d: DocView, s1: int, j1: int, s2: int, j2: int)
    requires
        wf_doc(d),
        0 <= s1 < d.len(),
        0 <= j1 < d[s1].1.len(),
        0 <= s2 < d.len(),
        0 <= j2 < d[s2].1.len(),
        s1 != s2 || j1 != j2,
    ensures
        (d[s1].0, d[s1].1[j1].0) !== (d[s2].0, d[s2].1[j2].0),
{
    if s1 != s2 {
        assert(d[s1].0 !== d[s2].0);
    } else {
        assert(d[s1].1[j1].0 !== d[s1].1[j2].0);
    }
}

/// A key the traversal has passed differs from the current position's key.
proof fn lemma_processed_key_ne(key: (Seq<char>, Seq<char>), d: DocView, i: int, j: int)
    requires
        wf_doc(d),
        key_processed(key, d, i, j),
        0 <= i < d.len(),
        0 <= j < d[i].1.len(),
    ensures
        key !== (d[i].0, d[i].1[j].0),
{
    let (si, jj) = choose|si: int, jj: int|
        #![trigger d[si].1[jj]]
        {
            &&& 0 <= si < d.len()
            &&& 0 <= jj < d[si].1.len()
            &&& (si < i || (si == i && jj < j))
            &&& key == (d[si].0, d[si].1[jj].0)
        };
    lemma_doc_keys_injective(d, si, jj, i, j);
}

/// Reads the live setting list out of Engine.ini text: one setting per
/// parsed key, with known-key metadata or an inferred type.
pub fn load_engine_settings(content: &str) -> (r: Vec<Setting>)
    requires
        content@.len() < usize::MAX,
    ensures
        forall|t: int|
            0 <= t < r@.len() ==> {
                let m = spec_parse_ini(content@);
                &&& m.dom().contains(#[trigger] r@[t].section@)
                &&& m[r@[t].section@].dom().contains(r@[t].name@)
                &&& r@[t].deep_view() == spec_setting_with_description(
                    r@[t].section@,
                    r@[t].name@,
                    m[r@[t].section@][r@[t].name@],
                )
            },
        forall|sec: Seq<char>, k: Seq<char>|
            spec_parse_ini(content@).dom().contains(sec) && spec_parse_ini(
                content@,
            )[sec].dom().contains(k) ==> covers(r@, sec, k),
        forall|t: int, u: int|
            0 <= t < u < r@.len() ==> crate::db::v_key(r@[t]) !== crate::db::v_key(r@[u]),
{
    let doc = parse_ini_file(content);
    let ghost d = doc.deep_view();
    let ghost m = spec_parse_ini(content@);
    let mut out: Vec<Setting> = Vec::new();
    let n = doc.len();
    let mut i: usize = 0;
    while i < n
        invariant
            0 <= i <= n,
            n == doc.len(),
            d == doc.deep_view(),
            wf_doc(d),
            doc_view(d) == m,
            forall|t: int|
                0 <= t < out@.len() ==> {
                    &&& m.dom().contains(#[trigger] out@[t].section@)
                    &&& m[out@[t].section@].dom().contains(out@[t].name@)
                    &&& out@[t].deep_view() == spec_setting_with_description(
                        out@[t].section@,
                        out@[t].name@,
                        m[out@[t].section@][out@[t].name@],
                    )
                },
            forall|si: int, jj: int|
                #![trigger d[si].1[jj]]
                0 <= si < i && 0 <= jj < d[si].1.len() ==> covers(out@, d[si].0, d[si].1[jj].0),
            forall|t: int|
                0 <= t < out@.len() ==> key_processed(
                    #[trigger] crate::db::v_key(out@[t]),
                    d,
                    i as int,
                    0,
                ),
            forall|t: int, u: int|
                0 <= t < u < out@.len() ==> crate::db::v_key(out@[t]) !== crate::db::v_key(
                    out@[u],
                ),
        decreases n - i,
    {
        let section_len = doc[i].1.len();
        let mut j: usize = 0;
        while j < section_len
            invariant
                0 <= j <= section_len,
                0 <= i < n,
                n == doc.len(),
                section_len == doc[i as int].1.len(),
                d == doc.deep_view(),
                wf_doc(d),
                doc_view(d) == m,
                forall|t: int|
                    0 <= t < out@.len() ==> {
                        &&& m.dom().contains(#[trigger] out@[t].section@)
                        &&& m[out@[t].section@].dom().contains(out@[t].name@)
                        &&& out@[t].deep_view() == spec_setting_with_description(
                            out@[t].section@,
                            out@[t].name@,
                            m[out@[t].section@][out@[t].name@],
                        )
                    },
                forall|si: int, jj: int|
                    #![trigger d[si].1[jj]]
                    0 <= si < i && 0 <= jj < d[si].1.len() ==> covers(out@, d[si].0, d[si].1[jj].0),
                forall|jj: int|
                    #![trigger d[i as int].1[jj]]
                    0 <= jj < j ==> covers(out@, d[i as int].0, d[i as int].1[jj].0),
                forall|t: int|
                    0 <= t < out@.len() ==> key_processed(
                        #[trigger] crate::db::v_key(out@[t]),
                        d,
                        i as int,
                        j as int,
                    ),
                forall|t: int, u: int|
                    0 <= t < u < out@.len() ==> crate::db::v_key(out@[t]) !== crate::db::v_key(
                        out@[u],
                    ),
            decreases section_len - j,
        {
            let s = create_setting_with_description(
                doc[i].0.as_str(),
                doc[i].1[j].0.as_str(),
                doc[i].1[j].1.as_str(),
            );
            proof {
                lemma_doc_view_index(d, i as int);
                crate::strutil::lemma_pairs_to_map_index(d[i as int].1, j as int);
                assert(m.dom().contains(d[i as int].0));
                assert(m[d[i as int].0].dom().contains(d[i as int].1[j as int].0));
                assert(m[d[i as int].0][d[i as int].1[j as int].0] == d[i as int].1[j as int].1);
            }
            let ghost out0 = out@;
            out.push(s);
            proof {
                let tn = out@.len() - 1;
                assert(out@[tn] == s);
                assert(out@ =~= out0.push(s));
                assert(crate::db::v_key(out@[tn]) == (d[i as int].0, d[i as int].1[j as int].0));
                assert forall|t: int| 0 <= t < out@.len() implies key_processed(
                    #[trigger] crate::db::v_key(out@[t]),
                    d,
                    i as int,
                    j + 1,
                ) by {
                    if t < tn {
                        assert(out@[t] == out0[t]);
                        lemma_key_processed_mono(
                            crate::db::v_key(out0[t]),
                            d,
                            i as int,
                            j as int,
                            i as int,
                            j + 1,
                        );
                    } else {
                        assert(key_processed(crate::db::v_key(out@[tn]), d, i as int, j + 1)) by {
                            assert(0 <= i < d.len() && 0 <= j < d[i as int].1.len() && (
                            (i as int) < (i as int) || ((i as int) == (i as int) && (j as int) < j
                                + 1)) && crate::db::v_key(out@[tn]) == (
                                d[i as int].0,
                                d[i as int].1[j as int].0,
                            ));
                        }
                    }
                }
                assert forall|t: int, u: int| 0 <= t < u < out@.len() implies crate::db::v_key(
                    out@[t],
                ) !== crate::db::v_key(out@[u]) by {
                    if u < tn {
                        assert(out@[t] == out0[t] && out@[u] == out0[u]);
                    } else {
                        assert(out@[t] == out0[t]);
                        lemma_processed_key_ne(crate::db::v_key(out0[t]), d, i as int, j as int);
                    }
                }
                assert forall|si: int, jj: int|
                    #![trigger d[si].1[jj]]
                    0 <= si < i && 0 <= jj < d[si].1.len() implies covers(
                    out@,
                    d[si].0,
                    d[si].1[jj].0,
                ) by {
                    lemma_covers_push(out0, s, d[si].0, d[si].1[jj].0);
                }
                assert forall|jj: int|
                    #![trigger d[i as int].1[jj]]
                    0 <= jj < j + 1 implies covers(out@, d[i as int].0, d[i as int].1[jj].0) by {
                    if jj < j {
                        lemma_covers_push(out0, s, d[i as int].0, d[i as int].1[jj].0);
                    } else {
                        assert(covers(out@, d[i as int].0, d[i as int].1[jj].0)) by {
                            assert(crate::db::v_key(out@[tn]) == (
                                d[i as int].0,
                                d[i as int].1[jj].0,
                            ));
                        }
                    }
                }
            }
            j += 1;
        }
        proof {
            assert forall|t: int| 0 <= t < out@.len() implies key_processed(
                #[trigger] crate::db::v_key(out@[t]),
                d,
                i + 1,
                0,
            ) by {
                lemma_key_processed_mono(
                    crate::db::v_key(out@[t]),
                    d,
                    i as int,
                    section_len as int,
                    i + 1,
                    0,
                );
            }
        }
        i += 1;
    }
    proof {
        assert forall|sec: Seq<char>, k: Seq<char>|
            m.dom().contains(sec) && m[sec].dom().contains(k) implies covers(out@, sec, k) by {
            crate::ini::lemma_doc_view_dom(d, sec);
            let si = choose|si: int| 0 <= si < d.len() && d[si].0 == sec;
            lemma_doc_view_index(d, si);
            assert(pairs_to_map(d[si].1).dom().contains(k));
            crate::strutil::lemma_pairs_to_map_dom(d[si].1, k);
            let j = choose|j: int| 0 <= j < d[si].1.len() && d[si].1[j].0 == k;
            assert(covers(out@, d[si].0, d[si].1[j].0));
        }
    }
    out
}

// ------------------------------------------------------------------
// Between presets and the configuration file.
// ------------------------------------------------------------------

/// Regenerates the Engine.ini text described by a preset: each flattened
/// `section.name` key with exactly one dot becomes a `key=value` line
/// under its `[section]`; other keys are dropped.
pub fn generate_engine_ini_from_preset(preset: &SettingsPreset) -> (r: String)
    ensures
        exists|d: DocView|
            {
                &&& wf_doc(d)
                &&& doc_view(d) == spec_unflatten(preset.settings.deep_view(), Map::empty())
                &&& r@ == #[trigger] spec_generate_ini(d)
            },
{
    let doc = unflatten(&preset.settings);
    let text = generate_ini_file(&doc);
    proof {
        let d = doc.deep_view();
        assert(wf_doc(d) && doc_view(d) == spec_unflatten(preset.settings.deep_view(), Map::empty())
            && text@ == spec_generate_ini(d));
    }
    text
}

/// Captures the configuration text as a new unsaved preset, its settings
/// the flattened parsed entries.
pub fn create_preset_from_engine_ini(content: &str, name: &str, description: &str) -> (p:
    SettingsPreset)
    requires
        content@.len() < usize::MAX,
    ensures
        p.id is None,
        p.name@ == name@,
        p.description@ == description@,
        exists|d: DocView|
            {
                &&& wf_doc(d)
                &&& doc_view(d) == spec_parse_ini(content@)
                &&& p.settings.deep_view() == #[trigger] spec_flatten(d)
            },
{
    let doc = parse_ini_file(content);
    let settings = flatten_for_presets(&doc);
    let p = SettingsPreset {
        id: None,
        name: name.to_owned(),
        description: description.to_owned(),
        created_at: local_now_rfc3339(),
        settings,
    };
    proof {
        let d = doc.deep_view();
        assert(wf_doc(d) && doc_view(d) == spec_parse_ini(content@) && p.settings.deep_view()
            == spec_flatten(d));
    }
    p
}

// ------------------------------------------------------------------
// The recommendation engine.
// ------------------------------------------------------------------

/// The base settings every recommended preset carries.
pub open spec fn base_recommended_pairs() -> Seq<(Seq<char>, Seq<char>)> {
    seq![
        ("SystemSettings.r.VSync"@, "0"@),
        ("RenderingThread.bAllowThreadedRendering"@, "True"@),
        ("RenderingThread.bAllowAsyncRenderThreadUpdates"@, "True"@),
        ("Engine.InputSettings.RawMouseInputEnabled"@, "1"@),
        ("Engine.InputSettings.bEnableMouseSmoothing"@, "False"@),
    ]
}

/// The VRAM-tiered texture streaming pool size, in MB, as text.
pub open spec fn pool_size_str(vram_mb: u64) -> Seq<char> {
    if vram_mb > 8000 {
        "12288"@
    } else if vram_mb > 6000 {
        "8192"@
    } else if vram_mb > 4000 {
        "4096"@
    } else {
        "2048"@
    }
}

/// The core-count-tiered shader compiler settings.
pub open spec fn shader_pairs(cores: u32) -> Seq<(Seq<char>, Seq<char>)> {
    if cores >= 8 {
        seq![
            ("SystemSettings.r.AllowMultiThreadedShaderCreation"@, "1"@),
            ("ShaderCompiler.bAllowCompilingThroughWorkerThreads"@, "True"@),
            ("ShaderCompiler.NumUnusedShaderCompilingThreads"@, "3"@),
        ]
    } else if cores >= 4 {
        seq![
            ("SystemSettings.r.AllowMultiThreadedShaderCreation"@, "1"@),
            ("ShaderCompiler.bAllowCompilingThroughWorkerThreads"@, "True"@),
            ("ShaderCompiler.NumUnusedShaderCompilingThreads"@, "1"@),
        ]
    } else {
        seq![
            ("SystemSettings.r.AllowMultiThreadedShaderCreation"@, "0"@),
            ("ShaderCompiler.bAllowCompilingThroughWorkerThreads"@, "False"@),
        ]
    }
}

/// The settings of the synthesized recommended preset.
pub open spec fn recommended_pairs(vram_mb: u64, cores: u32) -> Seq<(Seq<char>, Seq<char>)> {
    base_recommended_pairs() + seq![("SystemSettings.r.Streaming.PoolSize"@, pool_size_str(vram_mb))]
        + shader_pairs(cores)
}

/// The synthesized recommended settings never repeat a key.
proof fn lemma_recommended_distinct(vram_mb: u64, cores: u32)
    ensures
        distinct_keys(recommended_pairs(vram_mb, cores)),
{
    reveal_strlit("SystemSettings.r.VSync");
    reveal_strlit("RenderingThread.bAllowThreadedRendering");
    reveal_strlit("RenderingThread.bAllowAsyncRenderThreadUpdates");
    reveal_strlit("Engine.InputSettings.RawMouseInputEnabled");
    reveal_strlit("Engine.InputSettings.bEnableMouseSmoothing");
    reveal_strlit("SystemSettings.r.Streaming.PoolSize");
    reveal_strlit("SystemSettings.r.AllowMultiThreadedShaderCreation");
    reveal_strlit("ShaderCompiler.bAllowCompilingThroughWorkerThreads");
    reveal_strlit("ShaderCompiler.NumUnusedShaderCompilingThreads");
    let ps = recommended_pairs(vram_mb, cores);
    assert forall|i: int, j: int| 0 <= i < j < ps.len() implies ps[i].0 !== ps[j].0 by {
        assert(ps[i].0.len() != ps[j].0.len() || ps[i].0[0] != ps[j].0[0] || ps[i].0 !== ps[j].0);
    }
}

/// The preset was taken from the store: some stored preset named like the
/// system's tier supplied id and settings.
pub open spec fn recommended_from_store(
    r: SettingsPreset,
    c: rusqlite::Connection,
    info: SystemInfo,
) -> bool {
    exists|id: i64|
        {
            &&& #[trigger] preset_rows(c).dom().contains(id)
            &&& preset_rows(c)[id].0 == tier_label(spec_tier(info))
            &&& r.id == Some(id)
            &&& r.settings_map() == preset_settings_of(c, id)
        }
}

/// No stored preset carries the system's tier as its name.
pub open spec fn no_tier_preset(c: rusqlite::Connection, info: SystemInfo) -> bool {
    forall|id: i64|
        preset_rows(c).dom().contains(id) ==> (#[trigger] preset_rows(c)[id]).0 !== tier_label(
            spec_tier(info),
        )
}

/// The description the recommended preset carries.
pub open spec fn recommended_description(info: SystemInfo) -> Seq<char> {
    "Recommended settings for your system: "@ + info.gpu_name@ + " with "@ + dec_digits(
        info.gpu_vram_mb as nat,
    ) + " VRAM"@
}

/// Builds the recommended-settings description for a system.
fn build_recommended_description(info: &SystemInfo) -> (r: String)
    ensures
        r@ == recommended_description(*info),
{
    let mut d = "Recommended settings for your system: ".to_owned();
    d.append(info.gpu_name.as_str());
    d.append(" with ");
    let v = u64_to_string(info.gpu_vram_mb);
    d.append(v.as_str());
    d.append(" VRAM");
    proof {
        assert(d@ =~= recommended_description(*info));
    }
    d
}

/// Derives the recommended preset. With a store at hand, a stored preset
/// named like the computed performance tier is returned renamed
/// `Recommended`, its settings kept; without one, or when none matches or
/// the store fails, a preset is synthesized from the fixed heuristics:
/// the base settings, the VRAM-tiered streaming pool size and the
/// core-count-tiered shader compiler policy.
pub fn generate_recommended_settings(
    system_info: &SystemInfo,
    conn: Option<&rusqlite::Connection>,
) -> (r: SettingsPreset)
    ensures
        r.wf(),
        r.name@ == "Recommended"@,
        r.description@ == recommended_description(*system_info),
        match conn {
            None => r.id is None && r.settings.deep_view() == recommended_pairs(
                system_info.gpu_vram_mb,
                system_info.cpu_cores,
            ),
            Some(c) => recommended_from_store(r, *c, *system_info) || (r.id is None
                && r.settings.deep_view() == recommended_pairs(
                system_info.gpu_vram_mb,
                system_info.cpu_cores,
            )),
        },
        (match conn {
            Some(c) => no_tier_preset(*c, *system_info),
            None => true,
        }) ==> (r.id is None && r.settings.deep_view() == recommended_pairs(
            system_info.gpu_vram_mb,
            system_info.cpu_cores,
        )),
{
    let tier = get_performance_tier(system_info);
    let description = build_recommended_description(system_info);
    if let Some(c) = conn {
        match get_all_presets(c) {
            Ok(presets) => {
                let count = presets.len();
                proof {
                    assert forall|u: int| 0 <= u < presets@.len() implies stored_ok(
                        #[trigger] presets@[u],
                        *c,
                    ) by {
                        assert(presets@[u].id matches Some(pid) && preset_matches_store(
                            presets@[u],
                            *c,
                            pid,
                        ));
                    }
                }
                let mut t: usize = 0;
                while t < count
                    invariant
                        0 <= t <= count,
                        count == presets.len(),
                        conn == Some(c),
                        tier@ == tier_label(spec_tier(*system_info)),
                        description@ == recommended_description(*system_info),
                        forall|u: int| 0 <= u < presets@.len() ==> stored_ok(#[trigger] presets@[u], *c),
                    decreases count - t,
                {
                    if str_eq(presets[t].name.as_str(), tier) {
                        let found = &presets[t];
                        let ghost pid = found.id->0;
                        let r = SettingsPreset {
                            id: found.id,
                            name: "Recommended".to_owned(),
                            description,
                            created_at: local_now_rfc3339(),
                            settings: crate::strutil::clone_pairs(&found.settings),
                        };
                        proof {
                            assert(stored_ok(presets@[t as int], *c));
                            assert(preset_matches_store(*found, *c, pid));
                            assert(preset_rows(*c).dom().contains(pid));
                            assert(preset_rows(*c)[pid].0 == found.name@);
                            assert(found.name@ == tier_label(spec_tier(*system_info)));
                            assert(r.settings_map() == preset_settings_of(*c, pid));
                            assert(r.id == Some(pid));
                            assert(r.wf());
                            assert(recommended_from_store(r, *c, *system_info)) by {
                                assert(preset_rows(*c).dom().contains(pid) && preset_rows(*c)[pid].0
                                    == tier_label(spec_tier(*system_info)) && r.id == Some(pid)
                                    && r.settings_map() == preset_settings_of(*c, pid));
                            }
                            assert(!no_tier_preset(*c, *system_info)) by {
                                assert(preset_rows(*c).dom().contains(pid));
                                assert(preset_rows(*c)[pid].0 == tier_label(spec_tier(*system_info)));
                            }
                        }
                        return r;
                    }
                    t += 1;
                }
                synthesize_recommended(system_info, description)
            },
            Err(_) => synthesize_recommended(system_info, description),
        }
    } else {
        synthesize_recommended(system_info, description)
    }
}

/// Synthesizes the recommended preset from the fixed heuristics.
fn synthesize_recommended(system_info: &SystemInfo, description: String) -> (r: SettingsPreset)
    ensures
        r.wf(),
        r.id is None,
        r.name@ == "Recommended"@,
        r.description@ == description@,
        r.settings.deep_view() == recommended_pairs(system_info.gpu_vram_mb, system_info.cpu_cores),
{
    let mut settings: Vec<(String, String)> = Vec::new();
    settings.push(("SystemSettings.r.VSync".to_owned(), "0".to_owned()));
    settings.push(("RenderingThread.bAllowThreadedRendering".to_owned(), "True".to_owned()));
    settings.push(
        ("RenderingThread.bAllowAsyncRenderThreadUpdates".to_owned(), "True".to_owned()),
    );
    settings.push(("Engine.InputSettings.RawMouseInputEnabled".to_owned(), "1".to_owned()));
    settings.push(("Engine.InputSettings.bEnableMouseSmoothing".to_owned(), "False".to_owned()));
    let pool: &str = if system_info.gpu_vram_mb > 8000 {
        "12288"
    } else if system_info.gpu_vram_mb > 6000 {
        "8192"
    } else if system_info.gpu_vram_mb > 4000 {
        "4096"
    } else {
        "2048"
    };
    settings.push(("SystemSettings.r.Streaming.PoolSize".to_owned(), pool.to_owned()));
    if system_info.cpu_cores >= 8 {
        settings.push(
            ("SystemSettings.r.AllowMultiThreadedShaderCreation".to_owned(), "1".to_owned()),
        );
        settings.push(
            ("ShaderCompiler.bAllowCompilingThroughWorkerThreads".to_owned(), "True".to_owned()),
        );
        settings.push(("ShaderCompiler.NumUnusedShaderCompilingThreads".to_owned(), "3".to_owned()));
    } else if system_info.cpu_cores >= 4 {
        settings.push(
            ("SystemSettings.r.AllowMultiThreadedShaderCreation".to_owned(), "1".to_owned()),
        );
        settings.push(
            ("ShaderCompiler.bAllowCompilingThroughWorkerThreads".to_owned(), "True".to_owned()),
        );
        settings.push(("ShaderCompiler.NumUnusedShaderCompilingThreads".to_owned(), "1".to_owned()));
    } else {
        settings.push(
            ("SystemSettings.r.AllowMultiThreadedShaderCreation".to_owned(), "0".to_owned()),
        );
        settings.push(
            ("ShaderCompiler.bAllowCompilingThroughWorkerThreads".to_owned(), "False".to_owned()),
        );
    }
    proof {
        assert(settings.deep_view() =~= recommended_pairs(
            system_info.gpu_vram_mb,
            system_info.cpu_cores,
        ));
        lemma_recommended_distinct(system_info.gpu_vram_mb, system_info.cpu_cores);
    }
    SettingsPreset {
        id: None,
        name: "Recommended".to_owned(),
        description,
        created_at: local_now_rfc3339(),
        settings,
    }
}

// ------------------------------------------------------------------
// Applying presets to the live settings and capturing them back.
// ------------------------------------------------------------------

/// The in-memory application state the menu works on.
pub struct AppData {
    pub settings: Vec<Setting>,
    pub system_info: SystemInfo,
    pub current_preset: Option<SettingsPreset>,
}

/// A live setting after a preset is applied: where the preset's map holds
/// the setting's flattened key, the current value is overwritten; nothing
/// else changes.
pub open spec fn applied_setting(s: SettingView, pm: Map<Seq<char>, Seq<char>>) -> SettingView {
    if pm.dom().contains(spec_join_key(s.section, s.name)) {
        SettingView { current_value: pm[spec_join_key(s.section, s.name)], ..s }
    } else {
        s
    }
}

/// Applies a preset to the live setting list: each live setting whose
/// flattened key the preset holds takes the preset's value as its current
/// value; presets are trusted at apply time, so no value is re-validated.
pub fn apply_preset(settings: &mut Vec<Setting>, preset: &SettingsPreset)
    requires
        preset.wf(),
    ensures
        final(settings)@.len() == old(settings)@.len(),
        forall|i: int|
            0 <= i < final(settings)@.len() ==> #[trigger] final(settings)@[i].deep_view()
                == applied_setting(old(settings)@[i].deep_view(), preset.settings_map()),
{
    let n = settings.len();
    let mut i: usize = 0;
    while i < n
        invariant
            0 <= i <= n,
            n == settings@.len(),
            settings@.len() == old(settings)@.len(),
            preset.wf(),
            forall|t: int|
                0 <= t < i ==> #[trigger] settings@[t].deep_view() == applied_setting(
                    old(settings)@[t].deep_view(),
                    preset.settings_map(),
                ),
            forall|t: int| i <= t < n ==> #[trigger] settings@[t] == old(settings)@[t],
        decreases n - i,
    {
        let key = join_key(settings[i].section.as_str(), settings[i].name.as_str());
        match preset.get_setting(key.as_str()) {
            Some(v) => {
                let updated = crate::models::with_current_value(&settings[i], v.clone());
                settings.set(i, updated);
            },
            None => {},
        }
        i += 1;
    }
}

/// Captures the live setting list as a new unsaved preset: every
/// setting's current value under its flattened key; with duplicate
/// flattened keys the later setting wins.
pub fn capture_current(settings: &Vec<Setting>, name: &str, description: &str) -> (p:
    SettingsPreset)
    ensures
        p.wf(),
        p.id is None,
        p.name@ == name@,
        p.description@ == description@,
        p.settings_map() == pairs_to_map(
            Seq::new(
                settings@.len(),
                |i: int|
                    (
                        spec_join_key(settings@[i].section@, settings@[i].name@),
                        settings@[i].current_value@,
                    ),
            ),
        ),
{
    let ghost flat = Seq::new(
        settings@.len(),
        |i: int|
            (spec_join_key(settings@[i].section@, settings@[i].name@), settings@[i].current_value@),
    );
    let mut pairs: Vec<(String, String)> = Vec::new();
    let n = settings.len();
    let mut i: usize = 0;
    proof {
        assert(pairs.deep_view() =~= Seq::<(Seq<char>, Seq<char>)>::empty());
        assert(pairs_to_map(pairs.deep_view()) =~= pairs_to_map(flat.subrange(0, 0)));
    }
    while i < n
        invariant
            0 <= i <= n,
            n == settings@.len(),
            flat == Seq::new(
                settings@.len(),
                |t: int|
                    (
                        spec_join_key(settings@[t].section@, settings@[t].name@),
                        settings@[t].current_value@,
                    ),
            ),
            distinct_keys(pairs.deep_view()),
            pairs_to_map(pairs.deep_view()) == pairs_to_map(flat.subrange(0, i as int)),
        decreases n - i,
    {
        let key = join_key(settings[i].section.as_str(), settings[i].name.as_str());
        let value = settings[i].current_value.clone();
        upsert_pair(&mut pairs, key, value);
        proof {
            assert(flat.subrange(0, i + 1).drop_last() =~= flat.subrange(0, i as int));
            assert(flat.subrange(0, i + 1).last() == flat[i as int]);
        }
        i += 1;
    }
    proof {
        assert(flat.subrange(0, n as int) =~= flat);
    }
    SettingsPreset {
        id: None,
        name: name.to_owned(),
        description: description.to_owned(),
        created_at: local_now_rfc3339(),
        settings: pairs,
    }
}

// ------------------------------------------------------------------
// Thin delegates the original exposes beside the store's own names.
// ------------------------------------------------------------------

/// Loads the whole catalog from the store, as `db::get_all_settings`
/// does: every stored row once, ordered by section then name, its value
/// type decoded from the stored tag, its current value the stored
/// default.
pub fn load_settings_from_db(conn: &rusqlite::Connection) -> (r: Result<Vec<Setting>, DbError>)
    ensures
        match r {
            Ok(v) => {
                &&& forall|t: int, u: int|
                    0 <= t < u < v@.len() ==> crate::db::v_key(v@[t]) !== crate::db::v_key(v@[u])
                &&& forall|t: int|
                    0 <= t < v@.len() ==> crate::db::catalog_rows(*conn).dom().contains(
                        #[trigger] crate::db::v_key(v@[t]),
                    ) && crate::db::setting_matches_row(
                        v@[t].deep_view(),
                        crate::db::v_key(v@[t]),
                        crate::db::catalog_rows(*conn)[crate::db::v_key(v@[t])],
                    )
                &&& forall|key: (Seq<char>, Seq<char>)|
                    crate::db::catalog_rows(*conn).dom().contains(key) ==> exists|t: int|
                        0 <= t < v@.len() && #[trigger] crate::db::v_key(v@[t]) == key
                &&& forall|t: int, u: int|
                    0 <= t < u < v@.len() ==> crate::db::catalog_key_le(
                        crate::db::v_key(v@[t]),
                        crate::db::v_key(v@[u]),
                    )
            },
            Err(_) => true,
        },
{
    get_all_settings(conn)
}

/// Stores one setting's metadata, as `db::save_setting` does: the
/// matched catalog row is rewritten, an unknown key and a failed
/// statement change nothing, and the preset tables are never touched.
pub fn save_setting_to_db(conn: &mut rusqlite::Connection, setting: &Setting) -> (r: Result<
    (),
    DbError,
>)
    ensures
        match r {
            Ok(_) => {
                &&& crate::db::catalog_rows(*final(conn)) == (
                if crate::db::catalog_rows(*old(conn)).dom().contains(crate::db::v_key(*setting)) {
                    crate::db::catalog_rows(*old(conn)).insert(
                        crate::db::v_key(*setting),
                        crate::db::setting_columns(setting.deep_view()),
                    )
                } else {
                    crate::db::catalog_rows(*old(conn))
                })
                &&& preset_rows(*final(conn)) == preset_rows(*old(conn))
                &&& crate::db::preset_setting_rows(*final(conn))
                    == crate::db::preset_setting_rows(*old(conn))
            },
            Err(_) => {
                &&& preset_rows(*final(conn)) == preset_rows(*old(conn))
                &&& crate::db::preset_setting_rows(*final(conn))
                    == crate::db::preset_setting_rows(*old(conn))
                &&& crate::db::catalog_rows(*final(conn)) == crate::db::catalog_rows(*old(conn))
            },
        },
{
    save_setting(conn, setting)
}

} // verus!
