use tesla_usb::partitions::get_recommended_tesla_partitions;
use tesla_usb::tesla::{create_tesla_partitions, get_recommended_tesla_config};
use tesla_usb::{PartitionConfig, TeslaConfig};

fn assert_spec(spec: &PartitionConfig, name: &str, size_gb: u32, filesystem: &str, purpose: &str) {
    assert_eq!(spec.name, name);
    assert_eq!(spec.size_gb, size_gb);
    assert_eq!(spec.filesystem, filesystem);
    assert_eq!(spec.purpose, purpose);
}

#[test]
fn recommended_split_for_40_gb() {
    let plan = get_recommended_tesla_partitions(40);
    assert_eq!(plan.len(), 3);
    assert_spec(&plan[0], "TeslaCam", 20, "exfat", "Dashcam and Sentry Mode recordings");
    assert_spec(&plan[1], "TeslaMusic", 10, "exfat", "Music files");
    assert_spec(&plan[2], "TeslaLightshow", 10, "exfat", "Lightshow files");
}

#[test]
fn recommended_split_for_10_gb() {
    let plan = get_recommended_tesla_partitions(10);
    assert_eq!(plan.len(), 1);
    assert_spec(&plan[0], "TeslaCam", 5, "exfat", "Dashcam and Sentry Mode recordings");
}

#[test]
fn recommended_split_caps_dashcam_at_32_gb() {
    let plan = get_recommended_tesla_partitions(256);
    assert_eq!(plan[0].size_gb, 32);
    // remaining 224: music takes min(220, 112) = 112, lightshow the rest
    assert_eq!(plan[1].size_gb, 112);
    assert_eq!(plan[2].size_gb, 112);
}

#[test]
fn recommended_split_drops_small_lightshow() {
    // total 39: dashcam 19, remaining 20, music min(16, 10) = 10, lightshow 10
    let plan = get_recommended_tesla_partitions(39);
    assert_eq!(plan.len(), 3);
    assert_eq!(plan[2].size_gb, 10);
    // total 8 around the music threshold: dashcam 4, remaining 4 < 8
    let plan = get_recommended_tesla_partitions(8);
    assert_eq!(plan.len(), 1);
    assert_eq!(plan[0].size_gb, 4);
}

#[test]
fn recommended_split_never_emits_a_zero_size_entry() {
    assert!(get_recommended_tesla_partitions(0).is_empty());
    assert!(get_recommended_tesla_partitions(1).is_empty());
    let plan = get_recommended_tesla_partitions(2);
    assert_eq!(plan.len(), 1);
    assert_eq!(plan[0].name, "TeslaCam");
    assert_eq!(plan[0].size_gb, 1);
}

#[test]
fn recommended_split_is_deterministic() {
    let first = get_recommended_tesla_partitions(40);
    let second = get_recommended_tesla_partitions(40);
    assert_eq!(first.len(), second.len());
    for (a, b) in first.iter().zip(second.iter()) {
        assert_eq!(a.name, b.name);
        assert_eq!(a.size_gb, b.size_gb);
        assert_eq!(a.filesystem, b.filesystem);
        assert_eq!(a.purpose, b.purpose);
    }
}

#[test]
fn domain_config_compiles_to_single_dashcam_spec() {
    let config = TeslaConfig {
        dashcam_size_gb: 32,
        sentry_size_gb: 0,
        music_size_gb: 0,
        lightshow_size_gb: 0,
    };
    let plan = create_tesla_partitions(&config);
    assert_eq!(plan.len(), 1);
    assert_spec(&plan[0], "TeslaCam", 32, "exfat", "Dashcam and Sentry Mode recordings");
}

#[test]
fn domain_config_omits_zero_entries_and_keeps_order() {
    let config = TeslaConfig {
        dashcam_size_gb: 32,
        sentry_size_gb: 7,
        music_size_gb: 16,
        lightshow_size_gb: 8,
    };
    let plan = create_tesla_partitions(&config);
    assert_eq!(plan.len(), 3);
    assert_eq!(plan[0].name, "TeslaCam");
    assert_eq!(plan[1].name, "TeslaMusic");
    assert_eq!(plan[2].name, "TeslaLightshow");

    let none = create_tesla_partitions(&TeslaConfig {
        dashcam_size_gb: 0,
        sentry_size_gb: 0,
        music_size_gb: 0,
        lightshow_size_gb: 0,
    });
    assert!(none.is_empty());

    let music_only = create_tesla_partitions(&TeslaConfig {
        dashcam_size_gb: 0,
        sentry_size_gb: 0,
        music_size_gb: 4,
        lightshow_size_gb: 0,
    });
    assert_eq!(music_only.len(), 1);
    assert_spec(&music_only[0], "TeslaMusic", 4, "exfat", "Music files");
}

#[test]
fn recommended_config_bands() {
    assert_eq!(
        get_recommended_tesla_config(63),
        TeslaConfig { dashcam_size_gb: 32, sentry_size_gb: 0, music_size_gb: 0, lightshow_size_gb: 0 }
    );
    assert_eq!(
        get_recommended_tesla_config(64),
        TeslaConfig { dashcam_size_gb: 32, sentry_size_gb: 0, music_size_gb: 16, lightshow_size_gb: 8 }
    );
    assert_eq!(
        get_recommended_tesla_config(128),
        TeslaConfig { dashcam_size_gb: 64, sentry_size_gb: 0, music_size_gb: 32, lightshow_size_gb: 16 }
    );
}
