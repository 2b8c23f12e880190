//! The data model: value-type descriptors, catalog settings, named presets
//! and probed system information, together with the validation predicate
//! that gates every user-entered value.

use vstd::prelude::*;
use crate::numeric::{is_i64_literal, is_f64_literal, is_valid_integer, is_valid_float};
use crate::strutil::{str_eq, pairs_to_map, distinct_keys, lookup_pair, upsert_pair};

verus! {

/// The type of a setting value: a small closed type system.
#[derive(Clone, Debug)]
pub enum SettingValueType {
    Boolean,
    Integer,
    Float,
    String,
    Enum(Vec<String>),
}

/// The mathematical view of a value type.
pub enum ValueTypeView {
    Boolean,
    Integer,
    Float,
    String,
    Enum(Seq<Seq<char>>),
}

impl DeepView for SettingValueType {
    type V = ValueTypeView;

    open spec fn deep_view(&self) -> ValueTypeView {
        match self {
            SettingValueType::Boolean => ValueTypeView::Boolean,
            SettingValueType::Integer => ValueTypeView::Integer,
            SettingValueType::Float => ValueTypeView::Float,
            SettingValueType::String => ValueTypeView::String,
            SettingValueType::Enum(options) => ValueTypeView::Enum(options.deep_view()),
        }
    }
}

/// One known configuration key with its metadata and current value.
#[derive(Clone, Debug)]
pub struct Setting {
    pub name: String,
    pub section: String,
    pub description: String,
    pub value_type: SettingValueType,
    pub current_value: String,
    pub default_value: String,
    pub min_value: Option<String>,
    pub max_value: Option<String>,
    pub impact: String,
}

/// The mathematical view of a setting.
pub struct SettingView {
    pub name: Seq<char>,
    pub section: Seq<char>,
    pub description: Seq<char>,
    pub value_type: ValueTypeView,
    pub current_value: Seq<char>,
    pub default_value: Seq<char>,
    pub min_value: Option<Seq<char>>,
    pub max_value: Option<Seq<char>>,
    pub impact: Seq<char>,
}

impl DeepView for Setting {
    type V = SettingView;

    open spec fn deep_view(&self) -> SettingView {
        SettingView {
            name: self.name@,
            section: self.section@,
            description: self.description@,
            value_type: self.value_type.deep_view(),
            current_value: self.current_value@,
            default_value: self.default_value@,
            min_value: self.min_value.deep_view(),
            max_value: self.max_value.deep_view(),
            impact: self.impact@,
        }
    }
}

/// What it means for a candidate value to be valid for a value type:
/// Boolean takes exactly `0`, `1`, `True` or `False`; Integer any 64-bit
/// signed integer literal; Float any 64-bit floating-point literal; String
/// anything; Enumeration exactly one of its options.
pub open spec fn spec_is_valid_value(t: ValueTypeView, v: Seq<char>) -> bool {
    match t {
        ValueTypeView::Boolean => v == "0"@ || v == "1"@ || v == "True"@ || v == "False"@,
        ValueTypeView::Integer => is_i64_literal(v),
        ValueTypeView::Float => is_f64_literal(v),
        ValueTypeView::String => true,
        ValueTypeView::Enum(options) => exists|i: int| 0 <= i < options.len() && options[i] == v,
    }
}

impl Setting {
    /// Whether the candidate value is valid for this setting's value type.
    pub fn is_valid_value(&self, value: &str) -> (r: bool)
        ensures
            r == spec_is_valid_value(self.value_type.deep_view(), value@),
    {
        match &self.value_type {
            SettingValueType::Boolean => {
                str_eq(value, "0") || str_eq(value, "1") || str_eq(value, "True") || str_eq(
                    value,
                    "False",
                )
            },
            SettingValueType::Integer => is_valid_integer(value),
            SettingValueType::Float => is_valid_float(value),
            SettingValueType::String => true,
            SettingValueType::Enum(options) => {
                let n = options.len();
                let mut i: usize = 0;
                while i < n
                    invariant
                        0 <= i <= n,
                        n == options.len(),
                        self.value_type.deep_view() == ValueTypeView::Enum(options.deep_view()),
                        forall|j: int| 0 <= j < i ==> options.deep_view()[j] !== value@,
                    decreases n - i,
                {
                    if str_eq(options[i].as_str(), value) {
                        proof {
                            let opts = self.value_type.deep_view()->Enum_0;
                            assert(opts == options.deep_view());
                            assert(0 <= (i as int) < opts.len() && opts[i as int] == value@);
                            assert(exists|j: int| 0 <= j < opts.len() && opts[j] == value@);
                        }
                        return true;
                    }
                    assert(options.deep_view()[i as int] !== value@);
                    i += 1;
                }
                assert(self.value_type.deep_view() == ValueTypeView::Enum(options.deep_view()));
                false
            },
        }
    }
}

/// A named, persistable snapshot of configuration values, keyed by the
/// flattened `section.name` of each setting.
#[derive(Clone, Debug)]
pub struct SettingsPreset {
    pub id: Option<i64>,
    pub name: String,
    pub description: String,
    pub created_at: String,
    pub settings: Vec<(String, String)>,
}

impl SettingsPreset {
    /// Well-formed: no flattened key occurs twice.
    pub open spec fn wf(&self) -> bool {
        distinct_keys(self.settings.deep_view())
    }

    /// The mapping from flattened keys to values that this preset holds.
    pub open spec fn settings_map(&self) -> Map<Seq<char>, Seq<char>> {
        pairs_to_map(self.settings.deep_view())
    }

    /// Looks a flattened key up in the preset.
    pub fn get_setting<'a>(&'a self, key: &str) -> (r: Option<&'a String>)
        requires
            self.wf(),
        ensures
            match r {
                Some(v) => self.settings_map().dom().contains(key@) && self.settings_map()[key@]
                    == v@,
                None => !self.settings_map().dom().contains(key@),
            },
    {
        lookup_pair(&self.settings, key)
    }

    /// Sets a flattened key to a value, replacing any previous one.
    pub fn set_setting(&mut self, key: String, value: String)
        requires
            old(self).wf(),
        ensures
            final(self).wf(),
            final(self).settings_map() == old(self).settings_map().insert(key@, value@),
            final(self).id == old(self).id,
            final(self).name == old(self).name,
            final(self).description == old(self).description,
            final(self).created_at == old(self).created_at,
    {
        upsert_pair(&mut self.settings, key, value);
    }
}

/// Hardware information probed at startup; never persisted.
#[derive(Clone, Debug)]
pub struct SystemInfo {
    pub cpu_name: String,
    pub cpu_cores: u32,
    pub ram_gb: u64,
    pub gpu_name: String,
    pub gpu_vram_mb: u64,
}


/// Clones a value type.
pub fn clone_value_type(t: &SettingValueType) -> (r: SettingValueType)
    ensures
        r.deep_view() == t.deep_view(),
{
    match t {
        SettingValueType::Boolean => SettingValueType::Boolean,
        SettingValueType::Integer => SettingValueType::Integer,
        SettingValueType::Float => SettingValueType::Float,
        SettingValueType::String => SettingValueType::String,
        SettingValueType::Enum(options) => {
            let mut copy: Vec<String> = Vec::new();
            let n = options.len();
            let mut i: usize = 0;
            while i < n
                invariant
                    0 <= i <= n,
                    n == options.len(),
                    copy@.len() == i,
                    forall|t2: int| 0 <= t2 < i ==> copy.deep_view()[t2] == options.deep_view()[t2],
                decreases n - i,
            {
                copy.push(options[i].clone());
                i += 1;
            }
            proof {
                assert(copy.deep_view() =~= options.deep_view());
            }
            SettingValueType::Enum(copy)
        },
    }
}

/// Clones an optional string.
pub fn clone_opt_string(o: &Option<String>) -> (r: Option<String>)
    ensures
        r.deep_view() == o.deep_view(),
{
    match o {
        Some(s) => Some(s.clone()),
        None => None,
    }
}

/// The setting with its current value replaced and all else kept.
pub fn with_current_value(s: &Setting, value: String) -> (r: Setting)
    ensures
        r.deep_view() == (SettingView { current_value: value@, ..s.deep_view() }),
{
    Setting {
        name: s.name.clone(),
        section: s.section.clone(),
        description: s.description.clone(),
        value_type: clone_value_type(&s.value_type),
        current_value: value,
        default_value: s.default_value.clone(),
        min_value: clone_opt_string(&s.min_value),
        max_value: clone_opt_string(&s.max_value),
        impact: s.impact.clone(),
    }
}

} // verus!
