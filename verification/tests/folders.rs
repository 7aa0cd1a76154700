use tesla_usb::tesla::{
    classify_mount_point, folders_for_purpose, plan_folder_setup, PartitionPurpose,
};

#[test]
fn mount_points_are_classified_by_their_last_segment() {
    assert_eq!(classify_mount_point("/mnt/TeslaCam"), Some(PartitionPurpose::Dashcam));
    assert_eq!(
        classify_mount_point("/media/user/TeslaMusic"),
        Some(PartitionPurpose::Music)
    );
    assert_eq!(
        classify_mount_point("E:\\TeslaLightshow"),
        Some(PartitionPurpose::Lightshow)
    );
    assert_eq!(classify_mount_point("TeslaCam"), Some(PartitionPurpose::Dashcam));
    assert_eq!(classify_mount_point("/mnt/data"), None);
    assert_eq!(classify_mount_point(""), None);
}

#[test]
fn marker_in_an_earlier_segment_does_not_count() {
    assert_eq!(classify_mount_point("/TeslaCam/other"), None);
    assert_eq!(classify_mount_point("/media/TeslaMusic/backup"), None);
}

#[test]
fn marker_as_substring_of_the_segment_counts() {
    assert_eq!(
        classify_mount_point("/mnt/TeslaCam-old"),
        Some(PartitionPurpose::Dashcam)
    );
    // the dashcam marker is checked first
    assert_eq!(
        classify_mount_point("/mnt/TeslaCamTeslaMusic"),
        Some(PartitionPurpose::Dashcam)
    );
}

#[test]
fn each_purpose_owes_its_fixed_folders() {
    assert_eq!(
        folders_for_purpose(PartitionPurpose::Dashcam),
        vec!["TeslaCam", "TeslaCam/SavedClips", "TeslaCam/SentryClips", "TeslaCam/RecentClips"]
    );
    assert_eq!(folders_for_purpose(PartitionPurpose::Music), vec!["Music"]);
    assert_eq!(folders_for_purpose(PartitionPurpose::Lightshow), vec!["LightShow"]);
}

#[test]
fn folder_plan_covers_recognized_mounts_in_order() {
    let mounts = vec![
        "/mnt/TeslaCam".to_string(),
        "/mnt/ignored".to_string(),
        "/mnt/TeslaMusic".to_string(),
    ];
    let tasks = plan_folder_setup(&mounts);
    assert_eq!(tasks.len(), 5);
    assert_eq!(tasks[0].mount_point, "/mnt/TeslaCam");
    assert_eq!(tasks[0].folder, "TeslaCam");
    assert_eq!(tasks[1].folder, "TeslaCam/SavedClips");
    assert_eq!(tasks[2].folder, "TeslaCam/SentryClips");
    assert_eq!(tasks[3].folder, "TeslaCam/RecentClips");
    assert_eq!(tasks[4].mount_point, "/mnt/TeslaMusic");
    assert_eq!(tasks[4].folder, "Music");
}

#[test]
fn folder_plan_is_the_same_on_a_second_run() {
    let mounts = vec!["/mnt/TeslaCam".to_string(), "/mnt/TeslaLightshow".to_string()];
    let first = plan_folder_setup(&mounts);
    let second = plan_folder_setup(&mounts);
    assert_eq!(first.len(), second.len());
    for (a, b) in first.iter().zip(second.iter()) {
        assert_eq!(a.mount_point, b.mount_point);
        assert_eq!(a.folder, b.folder);
    }
}

#[test]
fn unrecognized_mounts_produce_no_tasks() {
    let mounts = vec!["/mnt/data".to_string(), "/media/user/stick".to_string()];
    assert!(plan_folder_setup(&mounts).is_empty());
}
