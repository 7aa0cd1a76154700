use tesla_usb::partitions::{
    create_diskpart_script, extract_disk_number, get_available_drive_letter,
    linux_command_steps, macos_command_steps, prepare_linux_execution, prepare_macos_execution,
    prepare_windows_script, PlanExecution,
};
use tesla_usb::{ExecutionError, PartitionConfig, UsbDevice};

const GB: u64 = 1024 * 1024 * 1024;

fn device(path: &str, size: u64) -> UsbDevice {
    UsbDevice {
        name: "Removable Disk".to_string(),
        path: path.to_string(),
        size,
        is_removable: true,
    }
}

fn spec(name: &str, size_gb: u32, filesystem: &str) -> PartitionConfig {
    PartitionConfig {
        name: name.to_string(),
        size_gb,
        filesystem: filesystem.to_string(),
        purpose: "test data".to_string(),
    }
}

#[test]
fn diskpart_script_text_is_exact() {
    let plan = vec![spec("TeslaCam", 32, "exfat"), spec("Data", 10, "ntfs")];
    let script = create_diskpart_script(&device("E:", 128 * GB), &plan);
    let expected = "select disk 0\n\
                    clean\n\
                    convert gpt\n\
                    create partition primary size=32768\n\
                    select partition 1\n\
                    active\n\
                    format fs=exfat quick\n\
                    assign letter=Z\n\
                    label=TeslaCam\n\
                    create partition primary size=10240\n\
                    select partition 2\n\
                    active\n\
                    format fs=ntfs quick\n\
                    assign letter=Z\n\
                    label=Data\n\
                    exit\n";
    assert_eq!(script, expected);
}

#[test]
fn diskpart_script_defaults_unknown_filesystems_to_exfat() {
    let plan = vec![spec("Odd", 1, "befs")];
    let script = create_diskpart_script(&device("E:", 128 * GB), &plan);
    assert!(script.contains("format fs=exfat quick\n"));
    assert_eq!(extract_disk_number("E:"), 0);
    assert_eq!(get_available_drive_letter(), 'Z');
}

#[test]
fn macos_steps_erase_then_partition_in_order() {
    let plan = vec![
        spec("TeslaCam", 32, "exfat"),
        spec("TeslaMusic", 10, "fat32"),
        spec("Old", 5, "hfs+"),
    ];
    let steps = macos_command_steps(&device("/dev/disk2", 128 * GB), &plan);
    assert_eq!(steps.len(), 4);
    assert_eq!(steps[0].command.program, "diskutil");
    assert_eq!(steps[0].command.args, vec!["eraseDisk", "GPT", "TempName", "/dev/disk2"]);
    assert!(steps[0].partition.is_none());
    assert_eq!(
        steps[1].command.args,
        vec!["partitionDisk", "/dev/disk2", "GPT", "ExFAT", "TeslaCam", "32GB"]
    );
    assert_eq!(steps[1].partition.as_deref(), Some("TeslaCam"));
    assert_eq!(steps[2].command.args[3], "MS-DOS FAT32");
    assert_eq!(steps[2].command.args[5], "10GB");
    assert_eq!(steps[3].command.args[3], "HFS+");
}

#[test]
fn linux_steps_run_sector_cursor_back_to_back() {
    let plan = vec![spec("One", 1, "exfat"), spec("Two", 2, "ext4")];
    let steps = linux_command_steps(&device("/dev/sdb", 16 * GB), &plan);
    assert_eq!(steps.len(), 5);
    assert_eq!(steps[0].command.program, "parted");
    assert_eq!(steps[0].command.args, vec!["/dev/sdb", "mklabel", "gpt"]);
    assert_eq!(
        steps[1].command.args,
        vec!["/dev/sdb", "mkpart", "primary", "1s", "2097153s"]
    );
    assert_eq!(steps[1].partition.as_deref(), Some("One"));
    assert_eq!(
        steps[2].command.args,
        vec!["/dev/sdb", "mkpart", "primary", "2097154s", "6291458s"]
    );
    assert_eq!(steps[2].partition.as_deref(), Some("Two"));
    assert_eq!(steps[3].command.program, "mkfs.exfat");
    assert_eq!(steps[3].command.args, vec!["-L", "One", "/dev/sdbp1"]);
    assert_eq!(steps[3].partition.as_deref(), Some("One"));
    assert_eq!(steps[4].command.program, "mkfs.ext4");
    assert_eq!(steps[4].command.args, vec!["-L", "Two", "/dev/sdbp2"]);
}

#[test]
fn linux_steps_map_fat32_and_unknown_kinds() {
    let plan = vec![spec("A", 1, "fat32"), spec("B", 1, "befs")];
    let steps = linux_command_steps(&device("/dev/sdb", 16 * GB), &plan);
    assert_eq!(steps[3].command.program, "mkfs.fat");
    assert_eq!(steps[4].command.program, "mkfs.exfat");
}

#[test]
fn failure_on_second_spec_stops_before_the_third() {
    let plan = vec![
        spec("TeslaCam", 2, "exfat"),
        spec("TeslaMusic", 2, "exfat"),
        spec("TeslaLightshow", 2, "exfat"),
    ];
    let mut execution =
        prepare_macos_execution(&device("/dev/disk2", 16 * GB), &plan).unwrap();
    // erase succeeds, the first partition succeeds
    assert!(execution.next_command().is_some());
    execution.report_outcome(true, String::new()).unwrap();
    assert!(execution.next_command().is_some());
    execution.report_outcome(true, String::new()).unwrap();
    // the second partition's call fails
    let failing = execution.next_command().unwrap();
    assert_eq!(failing.args[4], "TeslaMusic");
    let error = execution
        .report_outcome(false, "boom".to_string())
        .unwrap_err();
    let ExecutionError::BackendFailed { partition, stderr } = error;
    assert_eq!(partition.as_deref(), Some("TeslaMusic"));
    assert_eq!(stderr, "boom");
    // the third partition is never attempted
    assert!(execution.next_command().is_none());
    assert!(!execution.is_complete());
}

#[test]
fn failed_partition_creation_names_the_spec() {
    let plan = vec![spec("One", 1, "exfat"), spec("Two", 2, "exfat")];
    let mut execution =
        prepare_linux_execution(&device("/dev/sdb", 16 * GB), &plan).unwrap();
    // the GPT label succeeds, the first mkpart call fails
    execution.report_outcome(true, String::new()).unwrap();
    let error = execution
        .report_outcome(false, "no space".to_string())
        .unwrap_err();
    let ExecutionError::BackendFailed { partition, stderr } = error;
    assert_eq!(partition.as_deref(), Some("One"));
    assert_eq!(stderr, "no space");
    assert!(execution.next_command().is_none());
}

#[test]
fn completed_execution_hands_out_no_more_commands() {
    let plan = vec![spec("TeslaCam", 2, "exfat")];
    let mut execution =
        prepare_linux_execution(&device("/dev/sdb", 16 * GB), &plan).unwrap();
    let mut ran = 0;
    while execution.next_command().is_some() {
        execution.report_outcome(true, String::new()).unwrap();
        ran += 1;
    }
    assert_eq!(ran, 3);
    assert!(execution.is_complete());
}

#[test]
fn backend_failure_message_names_the_partition() {
    let with_name = ExecutionError::BackendFailed {
        partition: Some("TeslaMusic".to_string()),
        stderr: "boom".to_string(),
    };
    assert_eq!(with_name.message(), "Backend failed on partition TeslaMusic: boom");
    let without_name = ExecutionError::BackendFailed {
        partition: None,
        stderr: "boom".to_string(),
    };
    assert_eq!(without_name.message(), "Backend failed: boom");
}

#[test]
fn preparation_refuses_oversized_plans() {
    let plan = vec![spec("TeslaCam", 64, "exfat")];
    let small = device("/dev/sdb", 32 * GB);
    assert!(prepare_windows_script(&small, &plan).is_err());
    assert!(prepare_macos_execution(&small, &plan).is_err());
    let err = prepare_linux_execution(&small, &plan).unwrap_err();
    assert_eq!(err.requested, 64 * GB);
    assert_eq!(err.available, 32 * GB);
}

#[test]
fn prepared_windows_script_matches_direct_serialization() {
    let plan = vec![spec("TeslaCam", 32, "exfat")];
    let big = device("E:", 128 * GB);
    let prepared = prepare_windows_script(&big, &plan).unwrap();
    assert_eq!(prepared, create_diskpart_script(&big, &plan));
}

#[test]
fn fresh_execution_starts_at_the_first_step() {
    let plan = vec![spec("TeslaCam", 2, "exfat")];
    let steps = macos_command_steps(&device("/dev/disk2", 16 * GB), &plan);
    let execution = PlanExecution::new(steps);
    let first = execution.next_command().unwrap();
    assert_eq!(first.args[0], "eraseDisk");
}
