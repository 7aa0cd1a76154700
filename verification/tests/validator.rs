use tesla_usb::partitions::validate_partition_config;
use tesla_usb::{CapacityExceeded, PartitionConfig, UsbDevice};

const GB: u64 = 1024 * 1024 * 1024;

fn device(size: u64) -> UsbDevice {
    UsbDevice {
        name: "Removable Disk".to_string(),
        path: "/dev/sdb".to_string(),
        size,
        is_removable: true,
    }
}

fn spec(name: &str, size_gb: u32) -> PartitionConfig {
    PartitionConfig {
        name: name.to_string(),
        size_gb,
        filesystem: "exfat".to_string(),
        purpose: "test data".to_string(),
    }
}

#[test]
fn plan_equal_to_capacity_is_accepted() {
    let plan = vec![spec("A", 20), spec("B", 12)];
    assert!(validate_partition_config(&device(32 * GB), &plan).is_ok());
}

#[test]
fn plan_one_byte_over_capacity_is_rejected() {
    let plan = vec![spec("A", 20), spec("B", 12)];
    let result = validate_partition_config(&device(32 * GB - 1), &plan);
    assert_eq!(
        result,
        Err(CapacityExceeded { requested: 32 * GB, available: 32 * GB - 1 })
    );
}

#[test]
fn empty_plan_fits_any_device() {
    assert!(validate_partition_config(&device(0), &Vec::new()).is_ok());
}

#[test]
fn zero_sized_entries_cost_nothing() {
    let plan = vec![spec("A", 0), spec("B", 0)];
    assert!(validate_partition_config(&device(0), &plan).is_ok());
}

#[test]
fn capacity_error_reports_both_quantities() {
    let plan = vec![spec("A", 64)];
    let err = validate_partition_config(&device(32 * GB), &plan).unwrap_err();
    assert_eq!(err.requested, 64 * GB);
    assert_eq!(err.available, 32 * GB);
    assert_eq!(
        err.message(),
        "Total partition size (64 GB) exceeds device capacity (32 GB)"
    );
}
