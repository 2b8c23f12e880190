//! Hardware requirement checks and the performance tier derived from them.
//! The platform-specific probing itself lives outside the library; these
//! functions take the probed numbers as plain values.

use vstd::prelude::*;
use crate::models::SystemInfo;

verus! {

/// Minimum requirements: at least 4 cores, 8 GB RAM and 6144 MB VRAM.
pub open spec fn spec_meets_minimum(info: SystemInfo) -> bool {
    info.cpu_cores >= 4 && info.ram_gb >= 8 && info.gpu_vram_mb >= 6144
}

/// Recommended requirements: at least 8 cores, 16 GB RAM and 8192 MB VRAM.
pub open spec fn spec_meets_recommended(info: SystemInfo) -> bool {
    info.cpu_cores >= 8 && info.ram_gb >= 16 && info.gpu_vram_mb >= 8192
}

/// Whether the system meets the minimum requirements.
pub fn meets_minimum_requirements(info: &SystemInfo) -> (r: bool)
    ensures
        r == spec_meets_minimum(*info),
{
    let has_enough_cores = info.cpu_cores >= 4;
    let has_enough_ram = info.ram_gb >= 8;
    let has_enough_vram = info.gpu_vram_mb >= 6 * 1024;
    has_enough_cores && has_enough_ram && has_enough_vram
}

/// Whether the system meets the recommended requirements.
pub fn meets_recommended_requirements(info: &SystemInfo) -> (r: bool)
    ensures
        r == spec_meets_recommended(*info),
{
    let has_enough_cores = info.cpu_cores >= 8;
    let has_enough_ram = info.ram_gb >= 16;
    let has_enough_vram = info.gpu_vram_mb >= 8 * 1024;
    has_enough_cores && has_enough_ram && has_enough_vram
}

/// The three performance tiers, weakest first.
#[derive(Clone, Copy, Debug, PartialEq, Eq, Structural)]
pub enum PerformanceTier {
    Low,
    Medium,
    High,
}

/// The tier of a system: High when the recommended requirements hold,
/// Medium when only the minimum ones do, Low otherwise.
pub open spec fn spec_tier(info: SystemInfo) -> PerformanceTier {
    if spec_meets_recommended(info) {
        PerformanceTier::High
    } else if spec_meets_minimum(info) {
        PerformanceTier::Medium
    } else {
        PerformanceTier::Low
    }
}

/// Tiers ordered by strength.
pub open spec fn tier_rank(t: PerformanceTier) -> int {
    match t {
        PerformanceTier::Low => 0,
        PerformanceTier::Medium => 1,
        PerformanceTier::High => 2,
    }
}

/// The label under which a tier's preset is stored.
pub open spec fn tier_label(t: PerformanceTier) -> Seq<char> {
    match t {
        PerformanceTier::Low => "Low"@,
        PerformanceTier::Medium => "Medium"@,
        PerformanceTier::High => "High"@,
    }
}

/// The performance tier of a system, as the label of a stored preset.
pub fn get_performance_tier(info: &SystemInfo) -> (r: &'static str)
    ensures
        r@ == tier_label(spec_tier(*info)),
{
    if meets_recommended_requirements(info) {
        "High"
    } else if meets_minimum_requirements(info) {
        "Medium"
    } else {
        "Low"
    }
}

/// Tier monotonicity: a system that is at least as strong in cores, RAM
/// and VRAM never gets a lower tier.
pub proof fn lemma_tier_monotone(a: SystemInfo, b: SystemInfo)
    requires
        a.cpu_cores <= b.cpu_cores,
        a.ram_gb <= b.ram_gb,
        a.gpu_vram_mb <= b.gpu_vram_mb,
    ensures
        tier_rank(spec_tier(a)) <= tier_rank(spec_tier(b)),
{
}

/// The VRAM estimate used when no GPU can be probed, derived from the
/// amount of RAM.
pub fn estimate_vram_from_ram(ram_gb: u64) -> (r: u64)
    ensures
        r == spec_estimate_vram(ram_gb),
{
    if ram_gb >= 32 {
        8192
    } else if ram_gb >= 16 {
        6144
    } else if ram_gb >= 8 {
        4096
    } else {
        2048
    }
}

/// The RAM-tiered VRAM fallback.
pub open spec fn spec_estimate_vram(ram_gb: u64) -> u64 {
    if ram_gb >= 32 {
        8192u64
    } else if ram_gb >= 16 {
        6144u64
    } else if ram_gb >= 8 {
        4096u64
    } else {
        2048u64
    }
}

} // verus!
