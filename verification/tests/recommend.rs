use settings_manager::models::SystemInfo;
use settings_manager::config::generate_recommended_settings;

fn info(cores: u32, ram_gb: u64, vram_mb: u64) -> SystemInfo {
    SystemInfo {
        cpu_name: "cpu".to_string(),
        cpu_cores: cores,
        ram_gb,
        gpu_name: "TestGPU".to_string(),
        gpu_vram_mb: vram_mb,
    }
}

fn get<'a>(pairs: &'a [(String, String)], key: &str) -> &'a str {
    &pairs.iter().find(|(k, _)| k == key).expect("key").1
}

#[test]
fn streaming_pool_follows_vram() {
    let p = generate_recommended_settings(&info(8, 16, 10000), None);
    assert_eq!(get(&p.settings, "SystemSettings.r.Streaming.PoolSize"), "12288");
    let p = generate_recommended_settings(&info(8, 16, 5000), None);
    assert_eq!(get(&p.settings, "SystemSettings.r.Streaming.PoolSize"), "4096");
    let p = generate_recommended_settings(&info(8, 16, 7000), None);
    assert_eq!(get(&p.settings, "SystemSettings.r.Streaming.PoolSize"), "8192");
    let p = generate_recommended_settings(&info(8, 16, 4000), None);
    assert_eq!(get(&p.settings, "SystemSettings.r.Streaming.PoolSize"), "2048");
}

#[test]
fn base_settings_are_always_there() {
    let p = generate_recommended_settings(&info(2, 4, 2048), None);
    assert_eq!(get(&p.settings, "SystemSettings.r.VSync"), "0");
    assert_eq!(get(&p.settings, "RenderingThread.bAllowThreadedRendering"), "True");
    assert_eq!(
        get(&p.settings, "RenderingThread.bAllowAsyncRenderThreadUpdates"),
        "True"
    );
    assert_eq!(get(&p.settings, "Engine.InputSettings.RawMouseInputEnabled"), "1");
    assert_eq!(get(&p.settings, "Engine.InputSettings.bEnableMouseSmoothing"), "False");
}

#[test]
fn shader_policy_follows_core_count() {
    let p = generate_recommended_settings(&info(8, 16, 8192), None);
    assert_eq!(get(&p.settings, "SystemSettings.r.AllowMultiThreadedShaderCreation"), "1");
    assert_eq!(
        get(&p.settings, "ShaderCompiler.bAllowCompilingThroughWorkerThreads"),
        "True"
    );
    assert_eq!(get(&p.settings, "ShaderCompiler.NumUnusedShaderCompilingThreads"), "3");

    let p = generate_recommended_settings(&info(4, 8, 6144), None);
    assert_eq!(get(&p.settings, "ShaderCompiler.NumUnusedShaderCompilingThreads"), "1");

    let p = generate_recommended_settings(&info(2, 4, 2048), None);
    assert_eq!(get(&p.settings, "SystemSettings.r.AllowMultiThreadedShaderCreation"), "0");
    assert_eq!(
        get(&p.settings, "ShaderCompiler.bAllowCompilingThroughWorkerThreads"),
        "False"
    );
    assert!(p
        .settings
        .iter()
        .all(|(k, _)| k != "ShaderCompiler.NumUnusedShaderCompilingThreads"));
}

#[test]
fn synthesized_preset_is_named_and_described() {
    let p = generate_recommended_settings(&info(8, 16, 10000), None);
    assert_eq!(p.name, "Recommended");
    assert!(p.id.is_none());
    assert_eq!(
        p.description,
        "Recommended settings for your system: TestGPU with 10000 VRAM"
    );
}
