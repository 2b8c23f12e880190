use settings_manager::config::{
    apply_preset, capture_current, generate_engine_ini_from_preset, load_engine_settings,
    create_setting_with_description, create_preset_from_engine_ini,
};
use settings_manager::models::{Setting, SettingValueType, SettingsPreset};

fn live_setting(section: &str, name: &str, current: &str) -> Setting {
    Setting {
        name: name.to_string(),
        section: section.to_string(),
        description: String::new(),
        value_type: SettingValueType::String,
        current_value: current.to_string(),
        default_value: current.to_string(),
        min_value: None,
        max_value: None,
        impact: "Performance".to_string(),
    }
}

#[test]
fn applying_a_preset_overwrites_matched_current_values() {
    let mut live = vec![
        live_setting("RenderingThread", "bAllowThreadedRendering", "True"),
        live_setting("SystemSettings", "r.VSync", "1"),
    ];
    let p = SettingsPreset {
        id: None,
        name: "p".to_string(),
        description: String::new(),
        created_at: String::new(),
        settings: vec![(
            "RenderingThread.bAllowThreadedRendering".to_string(),
            "False".to_string(),
        )],
    };
    apply_preset(&mut live, &p);
    assert_eq!(live[0].current_value, "False");
    assert_eq!(live[0].default_value, "True");
    assert_eq!(live[1].current_value, "1");

    let text = generate_engine_ini_from_preset(&p);
    assert!(text.contains("[RenderingThread]"));
    assert!(text.contains("bAllowThreadedRendering=False"));
}

#[test]
fn capture_current_flattens_every_live_setting() {
    let live = vec![
        live_setting("A", "x", "1"),
        live_setting("B", "y", "2"),
    ];
    let p = capture_current(&live, "Current", "Current settings");
    assert!(p.id.is_none());
    assert_eq!(p.name, "Current");
    assert_eq!(p.description, "Current settings");
    assert_eq!(
        p.settings,
        vec![
            ("A.x".to_string(), "1".to_string()),
            ("B.y".to_string(), "2".to_string()),
        ]
    );
}

#[test]
fn known_keys_get_their_metadata() {
    let s = create_setting_with_description("SystemSettings", "r.Streaming.PoolSize", "4096");
    assert_eq!(s.description, "Size of texture streaming pool in MB");
    assert!(matches!(s.value_type, SettingValueType::Integer));
    assert_eq!(s.min_value.as_deref(), Some("1024"));
    assert_eq!(s.max_value.as_deref(), Some("16384"));
    assert_eq!(s.impact, "Visual Quality");
    assert_eq!(s.current_value, "4096");
    assert_eq!(s.default_value, "4096");
}

#[test]
fn unknown_keys_get_an_inferred_type() {
    let b = create_setting_with_description("X", "flag", "True");
    assert!(matches!(b.value_type, SettingValueType::Boolean));
    let i = create_setting_with_description("X", "count", "17");
    assert!(matches!(i.value_type, SettingValueType::Integer));
    let f = create_setting_with_description("X", "weight", "0.25");
    assert!(matches!(f.value_type, SettingValueType::Float));
    let s = create_setting_with_description("X", "word", "hello");
    assert!(matches!(s.value_type, SettingValueType::String));
    assert_eq!(s.description, "Setting for word");
}

#[test]
fn load_engine_settings_builds_one_setting_per_parsed_key() {
    let text = "[SystemSettings]\nr.VSync=0\n\n[RenderingThread]\nbAllowThreadedRendering=True\n";
    let settings = load_engine_settings(text);
    assert_eq!(settings.len(), 2);
    let vsync = settings
        .iter()
        .find(|s| s.section == "SystemSettings" && s.name == "r.VSync")
        .expect("vsync");
    assert!(matches!(vsync.value_type, SettingValueType::Boolean));
    assert_eq!(vsync.description, "Enable vertical sync to prevent screen tearing");
}

#[test]
fn preset_captured_from_ini_text_holds_flattened_keys() {
    let text = "[A]\nk=v\n\n[B]\nj=w\n";
    let p = create_preset_from_engine_ini(text, "Snapshot", "from file");
    assert!(p.id.is_none());
    assert_eq!(p.name, "Snapshot");
    let mut pairs = p.settings.clone();
    pairs.sort();
    assert_eq!(
        pairs,
        vec![
            ("A.k".to_string(), "v".to_string()),
            ("B.j".to_string(), "w".to_string()),
        ]
    );
}

#[test]
fn preset_lookup_and_update_work_by_key() {
    let mut p = SettingsPreset {
        id: None,
        name: "p".to_string(),
        description: String::new(),
        created_at: String::new(),
        settings: vec![("A.x".to_string(), "1".to_string())],
    };
    assert_eq!(p.get_setting("A.x").map(|v| v.as_str()), Some("1"));
    assert!(p.get_setting("A.y").is_none());
    p.set_setting("A.x".to_string(), "2".to_string());
    p.set_setting("A.y".to_string(), "3".to_string());
    assert_eq!(p.get_setting("A.x").map(|v| v.as_str()), Some("2"));
    assert_eq!(p.get_setting("A.y").map(|v| v.as_str()), Some("3"));
    assert_eq!(p.settings.len(), 2);
}
