use tesla_usb::tesla::{get_tesla_requirements, plan_for_tesla, validate_tesla_config};
use tesla_usb::{RequirementViolation, TeslaConfig, UsbDevice};

const GB: u64 = 1024 * 1024 * 1024;

fn device(size: u64) -> UsbDevice {
    UsbDevice {
        name: "Removable Disk".to_string(),
        path: "/dev/sdb".to_string(),
        size,
        is_removable: true,
    }
}

fn config(dashcam: u32, sentry: u32, music: u32, lightshow: u32) -> TeslaConfig {
    TeslaConfig {
        dashcam_size_gb: dashcam,
        sentry_size_gb: sentry,
        music_size_gb: music,
        lightshow_size_gb: lightshow,
    }
}

#[test]
fn small_device_is_rejected_first() {
    let result = validate_tesla_config(&device(20 * GB), &config(32, 0, 0, 0));
    assert_eq!(
        result,
        Err(RequirementViolation::DeviceTooSmall { device_gb: 20, min_gb: 32 })
    );
}

#[test]
fn small_dashcam_request_is_rejected() {
    let result = validate_tesla_config(&device(64 * GB), &config(16, 0, 0, 0));
    assert_eq!(
        result,
        Err(RequirementViolation::DashcamTooSmall { dashcam_gb: 16, min_gb: 32 })
    );
}

#[test]
fn oversized_total_is_rejected() {
    let result = validate_tesla_config(&device(64 * GB), &config(32, 0, 33, 0));
    assert_eq!(
        result,
        Err(RequirementViolation::TotalExceedsCapacity { total_gb: 65, device_gb: 64 })
    );
}

#[test]
fn sentry_request_counts_toward_the_total() {
    let result = validate_tesla_config(&device(64 * GB), &config(32, 33, 0, 0));
    assert_eq!(
        result,
        Err(RequirementViolation::TotalExceedsCapacity { total_gb: 65, device_gb: 64 })
    );
}

#[test]
fn fitting_config_is_accepted() {
    assert!(validate_tesla_config(&device(64 * GB), &config(32, 0, 16, 8)).is_ok());
    assert!(validate_tesla_config(&device(32 * GB), &config(32, 0, 0, 0)).is_ok());
}

#[test]
fn domain_planning_is_gated_by_the_checker() {
    let rejected = plan_for_tesla(&device(20 * GB), &config(32, 0, 0, 0));
    assert_eq!(
        rejected.unwrap_err(),
        RequirementViolation::DeviceTooSmall { device_gb: 20, min_gb: 32 }
    );
    let plan = plan_for_tesla(&device(64 * GB), &config(32, 0, 16, 0)).unwrap();
    assert_eq!(plan.len(), 2);
    assert_eq!(plan[0].name, "TeslaCam");
    assert_eq!(plan[0].size_gb, 32);
    assert_eq!(plan[1].name, "TeslaMusic");
    assert_eq!(plan[1].size_gb, 16);
}

#[test]
fn violation_messages_name_quantity_and_limit() {
    let too_small = RequirementViolation::DeviceTooSmall { device_gb: 20, min_gb: 32 };
    assert_eq!(
        too_small.message(),
        "Device size (20 GB) is below Tesla minimum requirement (32 GB)"
    );
    let dashcam = RequirementViolation::DashcamTooSmall { dashcam_gb: 16, min_gb: 32 };
    assert_eq!(
        dashcam.message(),
        "Dashcam partition size (16 GB) is below Tesla minimum requirement (32 GB)"
    );
    let total = RequirementViolation::TotalExceedsCapacity { total_gb: 65, device_gb: 64 };
    assert_eq!(
        total.message(),
        "Total configured size (65 GB) exceeds device capacity (64 GB)"
    );
}

#[test]
fn requirement_table_is_fixed() {
    let requirements = get_tesla_requirements();
    assert_eq!(requirements.min_total_size_gb, 32);
    assert_eq!(requirements.min_dashcam_size_gb, 32);
    assert_eq!(requirements.recommended_write_speed_mbps, 4);
    assert_eq!(requirements.supported_filesystems, vec!["exfat", "fat32", "ext3", "ext4"]);
    assert_eq!(
        requirements.required_folders,
        vec!["TeslaCam", "TeslaCam/SavedClips", "TeslaCam/SentryClips", "TeslaCam/RecentClips"]
    );
}
