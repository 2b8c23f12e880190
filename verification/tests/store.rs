use rusqlite::Connection;
use settings_manager::db::{
    setup_schema, save_preset, load_preset_by_id, get_all_presets, delete_preset,
    get_all_settings, save_setting, create_default_presets, DbError,
};
use settings_manager::migrations::run_migrations;
use settings_manager::models::{Setting, SettingValueType, SettingsPreset};
use settings_manager::config::generate_recommended_settings;

fn fresh() -> Connection {
    let mut conn = Connection::open_in_memory().expect("open");
    setup_schema(&mut conn).expect("schema");
    conn
}

fn preset(name: &str, settings: Vec<(&str, &str)>) -> SettingsPreset {
    SettingsPreset {
        id: None,
        name: name.to_string(),
        description: format!("{name} preset"),
        created_at: "2024-01-01T00:00:00+00:00".to_string(),
        settings: settings
            .into_iter()
            .map(|(k, v)| (k.to_string(), v.to_string()))
            .collect(),
    }
}

fn setting_rows_for(conn: &Connection, id: i64) -> i64 {
    conn.query_row(
        "SELECT COUNT(*) FROM preset_settings WHERE preset_id = ?1",
        (id,),
        |row| row.get(0),
    )
    .expect("count")
}

#[test]
fn save_then_load_reads_the_same_preset_back() {
    let mut conn = fresh();
    let p = preset(
        "Mine",
        vec![("RenderingThread.bAllowThreadedRendering", "True"), ("SystemSettings.r.VSync", "0")],
    );
    let id = save_preset(&mut conn, &p).expect("save");
    let q = load_preset_by_id(&conn, id).expect("load");
    assert_eq!(q.id, Some(id));
    assert_eq!(q.name, p.name);
    assert_eq!(q.description, p.description);
    assert_eq!(q.created_at, p.created_at);
    let mut got = q.settings.clone();
    let mut want = p.settings.clone();
    got.sort();
    want.sort();
    assert_eq!(got, want);
}

#[test]
fn resaving_with_an_id_updates_in_place() {
    let mut conn = fresh();
    let p = preset("First", vec![("A.k", "1")]);
    let id = save_preset(&mut conn, &p).expect("save");
    let mut q = load_preset_by_id(&conn, id).expect("load");
    q.name = "Renamed".to_string();
    q.settings = vec![("A.k".to_string(), "2".to_string()), ("B.j".to_string(), "3".to_string())];
    let id2 = save_preset(&mut conn, &q).expect("resave");
    assert_eq!(id2, id);
    let r = load_preset_by_id(&conn, id).expect("reload");
    assert_eq!(r.name, "Renamed");
    assert_eq!(r.settings.len(), 2);
    assert_eq!(get_all_presets(&conn).expect("list").len(), 1);
}

#[test]
fn delete_removes_preset_and_its_rows() {
    let mut conn = fresh();
    let p = preset("Doomed", vec![("A.k", "1"), ("A.j", "2")]);
    let id = save_preset(&mut conn, &p).expect("save");
    assert_eq!(setting_rows_for(&conn, id), 2);
    delete_preset(&mut conn, id).expect("delete");
    assert!(matches!(load_preset_by_id(&conn, id), Err(DbError::NotFound)));
    assert_eq!(setting_rows_for(&conn, id), 0);
}

#[test]
fn loading_an_unknown_id_is_not_found() {
    let conn = fresh();
    assert!(matches!(load_preset_by_id(&conn, 12345), Err(DbError::NotFound)));
}

#[test]
fn presets_list_sorted_by_name() {
    let mut conn = fresh();
    for name in ["Zeta", "Alpha", "Mid"] {
        save_preset(&mut conn, &preset(name, vec![("A.k", "1")])).expect("save");
    }
    let names: Vec<String> = get_all_presets(&conn)
        .expect("list")
        .into_iter()
        .map(|p| p.name)
        .collect();
    assert_eq!(names, vec!["Alpha", "Mid", "Zeta"]);
}

#[test]
fn migrations_run_twice_leave_the_same_catalog() {
    let mut conn = fresh();
    run_migrations(&mut conn).expect("first run");
    let once = get_all_settings(&conn).expect("read");
    run_migrations(&mut conn).expect("second run");
    let twice = get_all_settings(&conn).expect("reread");
    assert_eq!(once.len(), 37);
    assert_eq!(once.len(), twice.len());
    for (a, b) in once.iter().zip(twice.iter()) {
        assert_eq!(a.section, b.section);
        assert_eq!(a.name, b.name);
        assert_eq!(a.description, b.description);
        assert_eq!(a.default_value, b.default_value);
        assert_eq!(a.min_value, b.min_value);
        assert_eq!(a.max_value, b.max_value);
        assert_eq!(a.impact, b.impact);
    }
}

#[test]
fn catalog_comes_back_sorted_and_typed() {
    let mut conn = fresh();
    run_migrations(&mut conn).expect("migrate");
    let all = get_all_settings(&conn).expect("read");
    for w in all.windows(2) {
        let a = (&w[0].section, &w[0].name);
        let b = (&w[1].section, &w[1].name);
        assert!(a <= b, "{a:?} !<= {b:?}");
    }
    let rt = all
        .iter()
        .find(|s| s.section == "RenderingThread" && s.name == "bAllowThreadedRendering")
        .expect("row");
    match &rt.value_type {
        SettingValueType::Enum(options) => {
            assert_eq!(options, &vec!["True".to_string(), "False".to_string()]);
        },
        other => panic!("expected an enumeration, got {other:?}"),
    }
    assert_eq!(rt.current_value, rt.default_value);
    let pool = all
        .iter()
        .find(|s| s.section == "Core.System" && s.name == "r.IoDispatcher.CacheSize")
        .expect("row");
    assert!(matches!(pool.value_type, SettingValueType::Integer));
    assert_eq!(pool.min_value.as_deref(), Some("1024"));
    assert_eq!(pool.max_value.as_deref(), Some("8192"));
}

#[test]
fn save_setting_rewrites_known_rows_and_ignores_unknown_ones() {
    let mut conn = fresh();
    run_migrations(&mut conn).expect("migrate");
    let all = get_all_settings(&conn).expect("read");
    let mut s = all
        .iter()
        .find(|s| s.section == "ShaderCompiler" && s.name == "NumUnusedShaderCompilingThreads")
        .expect("row")
        .clone();
    s.description = "tuned".to_string();
    s.default_value = "2".to_string();
    save_setting(&mut conn, &s).expect("update");
    let again = get_all_settings(&conn).expect("reread");
    let row = again
        .iter()
        .find(|x| x.section == s.section && x.name == s.name)
        .expect("row");
    assert_eq!(row.description, "tuned");
    assert_eq!(row.default_value, "2");

    let unknown = Setting {
        name: "no.such.key".to_string(),
        section: "Nowhere".to_string(),
        description: String::new(),
        value_type: SettingValueType::String,
        current_value: "x".to_string(),
        default_value: "x".to_string(),
        min_value: None,
        max_value: None,
        impact: "None".to_string(),
    };
    save_setting(&mut conn, &unknown).expect("silent no-op");
    assert_eq!(get_all_settings(&conn).expect("count").len(), 37);
}

#[test]
fn default_presets_seed_the_five_names() {
    let mut conn = fresh();
    let defaults = vec![("SystemSettings.r.VSync".to_string(), "1".to_string())];
    create_default_presets(&mut conn, &defaults).expect("seed");
    let names: Vec<String> = get_all_presets(&conn)
        .expect("list")
        .into_iter()
        .map(|p| p.name)
        .collect();
    assert_eq!(names, vec!["Default", "High", "Low", "Medium", "Ultra"]);
    let presets = get_all_presets(&conn).expect("list");
    let low = presets.iter().find(|p| p.name == "Low").expect("low");
    let lookup = |k: &str| -> Option<String> {
        low.settings.iter().find(|(key, _)| key == k).map(|(_, v)| v.clone())
    };
    assert_eq!(lookup("SystemSettings.r.Streaming.PoolSize").as_deref(), Some("2048"));
    assert_eq!(lookup("SystemSettings.r.VSync").as_deref(), Some("0"));
    let ultra = presets.iter().find(|p| p.name == "Ultra").expect("ultra");
    assert!(ultra
        .settings
        .iter()
        .any(|(k, v)| k == "SystemSettings.r.RayTracing" && v == "1"));
}

#[test]
fn recommended_prefers_a_stored_tier_preset() {
    let mut conn = fresh();
    let stored = preset("High", vec![("SystemSettings.r.Streaming.PoolSize", "7777")]);
    let id = save_preset(&mut conn, &stored).expect("save");
    let info = settings_manager::models::SystemInfo {
        cpu_name: "cpu".to_string(),
        cpu_cores: 8,
        ram_gb: 16,
        gpu_name: "gpu".to_string(),
        gpu_vram_mb: 8192,
    };
    let r = generate_recommended_settings(&info, Some(&conn));
    assert_eq!(r.name, "Recommended");
    assert_eq!(r.id, Some(id));
    assert_eq!(
        r.settings,
        vec![("SystemSettings.r.Streaming.PoolSize".to_string(), "7777".to_string())]
    );
}

#[test]
fn recommended_falls_back_without_a_matching_preset() {
    let mut conn = fresh();
    save_preset(&mut conn, &preset("Low", vec![("A.k", "1")])).expect("save");
    let info = settings_manager::models::SystemInfo {
        cpu_name: "cpu".to_string(),
        cpu_cores: 8,
        ram_gb: 16,
        gpu_name: "gpu".to_string(),
        gpu_vram_mb: 8192,
    };
    // the system's tier is High; only a Low preset is stored
    let r = generate_recommended_settings(&info, Some(&conn));
    assert!(r.id.is_none());
    assert!(r
        .settings
        .iter()
        .any(|(k, v)| k == "SystemSettings.r.Streaming.PoolSize" && v == "12288"));
}

#[test]
fn database_errors_surface_as_sqlite_errors() {
    // no schema was created, so the insert must fail
    let mut conn = Connection::open_in_memory().expect("open");
    let r = save_preset(&mut conn, &preset("p", vec![("A.k", "1")]));
    assert!(matches!(r, Err(DbError::Sqlite(_))));
}

#[test]
fn failed_save_leaves_the_store_untouched() {
    let mut conn = fresh();
    save_preset(&mut conn, &preset("Kept", vec![("A.k", "1")])).expect("save");
    // force a failure midway: the header insert succeeds, the key/value
    // insert cannot, so the transaction must roll everything back
    conn.execute("DROP TABLE preset_settings", ())
        .expect("drop");
    let doomed = preset("Doomed", vec![("B.j", "2")]);
    assert!(matches!(save_preset(&mut conn, &doomed), Err(DbError::Sqlite(_))));
    let headers: i64 = conn
        .query_row("SELECT COUNT(*) FROM presets", (), |row| row.get(0))
        .expect("count");
    assert_eq!(headers, 1, "the failed save must not leave a header row");
    let name: String = conn
        .query_row("SELECT name FROM presets", (), |row| row.get(0))
        .expect("name");
    assert_eq!(name, "Kept");
}

#[test]
fn one_migration_unit_runs_alone_and_twice() {
    let mut conn = fresh();
    conn.execute(
        "CREATE TABLE IF NOT EXISTS settings (id INTEGER PRIMARY KEY, name TEXT NOT NULL, section TEXT NOT NULL, description TEXT NOT NULL, value_type TEXT NOT NULL, default_value TEXT NOT NULL, min_value TEXT, max_value TEXT, impact TEXT NOT NULL, possible_values TEXT, UNIQUE(section, name))",
        (),
    )
    .expect("table");
    settings_manager::migrations::rendering_thread::migrate(&mut conn).expect("first");
    settings_manager::migrations::rendering_thread::migrate(&mut conn).expect("second");
    let all = get_all_settings(&conn).expect("read");
    assert_eq!(all.len(), 2);
    assert!(all.iter().all(|s| s.section == "RenderingThread"));
}
