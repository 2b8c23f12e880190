use settings_manager::models::SystemInfo;
use settings_manager::system::{
    meets_minimum_requirements, meets_recommended_requirements, get_performance_tier,
    estimate_vram_from_ram,
};

fn info(cores: u32, ram_gb: u64, vram_mb: u64) -> SystemInfo {
    SystemInfo {
        cpu_name: "cpu".to_string(),
        cpu_cores: cores,
        ram_gb,
        gpu_name: "gpu".to_string(),
        gpu_vram_mb: vram_mb,
    }
}

#[test]
fn tier_scenarios() {
    assert_eq!(get_performance_tier(&info(8, 16, 8192)), "High");
    assert_eq!(get_performance_tier(&info(4, 8, 6144)), "Medium");
    assert_eq!(get_performance_tier(&info(2, 4, 2048)), "Low");
}

#[test]
fn all_three_thresholds_must_hold_together() {
    assert_eq!(get_performance_tier(&info(16, 32, 4096)), "Low");
    assert_eq!(get_performance_tier(&info(2, 32, 16384)), "Low");
    assert_eq!(get_performance_tier(&info(8, 8, 8192)), "Medium");
    assert_eq!(get_performance_tier(&info(8, 16, 6144)), "Medium");
}

#[test]
fn requirement_checks_match_their_thresholds() {
    assert!(meets_minimum_requirements(&info(4, 8, 6144)));
    assert!(!meets_minimum_requirements(&info(4, 8, 6143)));
    assert!(meets_recommended_requirements(&info(8, 16, 8192)));
    assert!(!meets_recommended_requirements(&info(7, 16, 8192)));
}

fn rank(label: &str) -> u32 {
    match label {
        "Low" => 0,
        "Medium" => 1,
        "High" => 2,
        _ => panic!("unknown tier"),
    }
}

#[test]
fn stronger_hardware_never_gets_a_lower_tier() {
    let samples = [
        (2u32, 4u64, 2048u64),
        (4, 8, 6144),
        (4, 16, 6144),
        (8, 16, 8192),
        (16, 64, 24576),
    ];
    for a in samples {
        for b in samples {
            if a.0 <= b.0 && a.1 <= b.1 && a.2 <= b.2 {
                let ta = rank(get_performance_tier(&info(a.0, a.1, a.2)));
                let tb = rank(get_performance_tier(&info(b.0, b.1, b.2)));
                assert!(ta <= tb, "{a:?} vs {b:?}");
            }
        }
    }
}

#[test]
fn vram_fallback_follows_ram_tiers() {
    assert_eq!(estimate_vram_from_ram(64), 8192);
    assert_eq!(estimate_vram_from_ram(32), 8192);
    assert_eq!(estimate_vram_from_ram(16), 6144);
    assert_eq!(estimate_vram_from_ram(8), 4096);
    assert_eq!(estimate_vram_from_ram(4), 2048);
}
