//! The vehicle-specific side: the fixed requirement table, the domain
//! requirements checker, the compilation of a vehicle profile into a
//! partition plan, the recommended profile for a given device size, and the
//! folder layout owed to each partition purpose after formatting.
use vstd::prelude::*;

use crate::partitions::BYTES_PER_GB;
use crate::text::{
    contains_substring, last_path_segment, nonempty_parts, spec_contains, spec_last_segment,
    spec_nonempty_parts, spec_split, split_by,
};
use crate::{PartitionConfig, PartitionView, RequirementViolation, TeslaConfig, UsbDevice};

verus! {

/// Minimum total device size in GB the vehicle accepts.
pub const MIN_TOTAL_SIZE_GB: u32 = 32;

/// Minimum dashcam partition size in GB the vehicle accepts.
pub const MIN_DASHCAM_SIZE_GB: u32 = 32;

/// Recommended write speed in MB/s; informational, never enforced.
pub const RECOMMENDED_WRITE_SPEED_MBPS: u32 = 4;

/// A device's capacity in whole GB, rounding down.
pub open spec fn spec_device_gb(size: u64) -> int {
    size as int / BYTES_PER_GB as int
}

/// Sum of the four size requests of a vehicle profile, in GB.
pub open spec fn spec_config_total_gb(config: TeslaConfig) -> int {
    config.dashcam_size_gb + config.sentry_size_gb + config.music_size_gb
        + config.lightshow_size_gb
}

/// The domain requirements checker: a vehicle profile is accepted exactly
/// when the device holds at least [`MIN_TOTAL_SIZE_GB`], the dashcam request
/// is at least [`MIN_DASHCAM_SIZE_GB`], and the four requests together fit
/// the device's capacity in GB. The checks run in that order and the first
/// violation is reported.
pub fn validate_tesla_config(device: &UsbDevice, config: &TeslaConfig) -> (r: Result<
    (),
    RequirementViolation,
>)
    ensures
        r is Ok <==> spec_device_gb(device.size) >= MIN_TOTAL_SIZE_GB
            && config.dashcam_size_gb >= MIN_DASHCAM_SIZE_GB && spec_config_total_gb(*config)
            <= spec_device_gb(device.size),
        r matches Err(e) ==> e == spec_tesla_violation(device.size, *config),
{
    let device_size_gb = device.size / BYTES_PER_GB;
    if device_size_gb < MIN_TOTAL_SIZE_GB as u64 {
        return Err(RequirementViolation::DeviceTooSmall {
            device_gb: device_size_gb,
            min_gb: MIN_TOTAL_SIZE_GB,
        });
    }
    if config.dashcam_size_gb < MIN_DASHCAM_SIZE_GB {
        return Err(RequirementViolation::DashcamTooSmall {
            dashcam_gb: config.dashcam_size_gb,
            min_gb: MIN_DASHCAM_SIZE_GB,
        });
    }
    let total_config_gb = config.dashcam_size_gb as u64 + config.sentry_size_gb as u64
        + config.music_size_gb as u64 + config.lightshow_size_gb as u64;
    if total_config_gb > device_size_gb {
        return Err(RequirementViolation::TotalExceedsCapacity {
            total_gb: total_config_gb,
            device_gb: device_size_gb,
        });
    }
    Ok(())
}

/// The violation `validate_tesla_config` reports for a profile it rejects:
/// the first failed check in checking order.
pub open spec fn spec_tesla_violation(size: u64, config: TeslaConfig) -> RequirementViolation {
    if spec_device_gb(size) < MIN_TOTAL_SIZE_GB {
        RequirementViolation::DeviceTooSmall {
            device_gb: spec_device_gb(size) as u64,
            min_gb: MIN_TOTAL_SIZE_GB,
        }
    } else if config.dashcam_size_gb < MIN_DASHCAM_SIZE_GB {
        RequirementViolation::DashcamTooSmall {
            dashcam_gb: config.dashcam_size_gb,
            min_gb: MIN_DASHCAM_SIZE_GB,
        }
    } else {
        RequirementViolation::TotalExceedsCapacity {
            total_gb: spec_config_total_gb(config) as u64,
            device_gb: spec_device_gb(size) as u64,
        }
    }
}

/// The dashcam plan entry: the "TeslaCam" exFAT partition.
pub open spec fn spec_cam_partition(size_gb: u32) -> PartitionView {
    PartitionView {
        name: "TeslaCam"@,
        size_gb,
        filesystem: "exfat"@,
        purpose: "Dashcam and Sentry Mode recordings"@,
    }
}

/// The music plan entry: the "TeslaMusic" exFAT partition.
pub open spec fn spec_music_partition(size_gb: u32) -> PartitionView {
    PartitionView { name: "TeslaMusic"@, size_gb, filesystem: "exfat"@, purpose: "Music files"@ }
}

/// The lightshow plan entry: the "TeslaLightshow" exFAT partition.
pub open spec fn spec_lightshow_partition(size_gb: u32) -> PartitionView {
    PartitionView {
        name: "TeslaLightshow"@,
        size_gb,
        filesystem: "exfat"@,
        purpose: "Lightshow files"@,
    }
}

/// Builds the dashcam plan entry.
pub fn cam_partition(size_gb: u32) -> (r: PartitionConfig)
    ensures
        r.deep_view() == spec_cam_partition(size_gb),
{
    PartitionConfig {
        name: "TeslaCam".to_owned(),
        size_gb,
        filesystem: "exfat".to_owned(),
        purpose: "Dashcam and Sentry Mode recordings".to_owned(),
    }
}

/// Builds the music plan entry.
pub fn music_partition(size_gb: u32) -> (r: PartitionConfig)
    ensures
        r.deep_view() == spec_music_partition(size_gb),
{
    PartitionConfig {
        name: "TeslaMusic".to_owned(),
        size_gb,
        filesystem: "exfat".to_owned(),
        purpose: "Music files".to_owned(),
    }
}

/// Builds the lightshow plan entry.
pub fn lightshow_partition(size_gb: u32) -> (r: PartitionConfig)
    ensures
        r.deep_view() == spec_lightshow_partition(size_gb),
{
    PartitionConfig {
        name: "TeslaLightshow".to_owned(),
        size_gb,
        filesystem: "exfat".to_owned(),
        purpose: "Lightshow files".to_owned(),
    }
}

/// The plan a vehicle profile compiles to: dashcam, music, lightshow, in
/// that order, each included exactly when its requested size is positive,
/// each exFAT. The sentry request never yields a partition.
pub open spec fn spec_tesla_plan(config: TeslaConfig) -> Seq<PartitionView> {
    (if config.dashcam_size_gb > 0 {
        seq![spec_cam_partition(config.dashcam_size_gb)]
    } else {
        Seq::empty()
    }) + (if config.music_size_gb > 0 {
        seq![spec_music_partition(config.music_size_gb)]
    } else {
        Seq::empty()
    }) + (if config.lightshow_size_gb > 0 {
        seq![spec_lightshow_partition(config.lightshow_size_gb)]
    } else {
        Seq::empty()
    })
}

/// Compiles a vehicle profile into its ordered partition plan.
pub fn create_tesla_partitions(config: &TeslaConfig) -> (r: Vec<PartitionConfig>)
    ensures
        r.deep_view() == spec_tesla_plan(*config),
{
    let mut partitions: Vec<PartitionConfig> = Vec::new();
    if config.dashcam_size_gb > 0 {
        partitions.push(cam_partition(config.dashcam_size_gb));
    }
    if config.music_size_gb > 0 {
        partitions.push(music_partition(config.music_size_gb));
    }
    if config.lightshow_size_gb > 0 {
        partitions.push(lightshow_partition(config.lightshow_size_gb));
    }
    proof {
        assert(partitions.deep_view() =~= spec_tesla_plan(*config));
    }
    partitions
}

/// Every entry a vehicle profile compiles to asks for a positive size: a
/// zero request yields no partition.
pub proof fn lemma_tesla_plan_positive(config: TeslaConfig)
    ensures
        forall|i: int|
            0 <= i < spec_tesla_plan(config).len() ==> (#[trigger] spec_tesla_plan(config)[i]).size_gb
                > 0,
{
}

/// The gated domain flow: a vehicle profile is checked against the fixed
/// requirements and compiled into its partition plan only when it passes,
/// so no plan of a rejected profile can reach a backend.
pub fn plan_for_tesla(device: &UsbDevice, config: &TeslaConfig) -> (r: Result<
    Vec<PartitionConfig>,
    RequirementViolation,
>)
    ensures
        r is Ok <==> spec_device_gb(device.size) >= MIN_TOTAL_SIZE_GB
            && config.dashcam_size_gb >= MIN_DASHCAM_SIZE_GB && spec_config_total_gb(*config)
            <= spec_device_gb(device.size),
        r matches Ok(p) ==> p.deep_view() == spec_tesla_plan(*config),
        r matches Err(e) ==> e == spec_tesla_violation(device.size, *config),
{
    match validate_tesla_config(device, config) {
        Ok(()) => Ok(create_tesla_partitions(config)),
        Err(e) => Err(e),
    }
}

/// The recommended vehicle profile for a device of the given size in GB:
/// dashcam only below 64 GB, dashcam with music and lightshow up to 128 GB,
/// and a larger split beyond that. Sentry is never allotted a partition of
/// its own.
pub fn get_recommended_tesla_config(device_size_gb: u32) -> (r: TeslaConfig)
    ensures
        r == spec_recommended_config(device_size_gb),
{
    if device_size_gb < 64 {
        TeslaConfig { dashcam_size_gb: 32, sentry_size_gb: 0, music_size_gb: 0, lightshow_size_gb: 0 }
    } else if device_size_gb < 128 {
        TeslaConfig {
            dashcam_size_gb: 32,
            sentry_size_gb: 0,
            music_size_gb: 16,
            lightshow_size_gb: 8,
        }
    } else {
        TeslaConfig {
            dashcam_size_gb: 64,
            sentry_size_gb: 0,
            music_size_gb: 32,
            lightshow_size_gb: 16,
        }
    }
}

/// The fixed requirement table the vehicle imposes on a prepared device:
/// minimum sizes, the informational write speed, the filesystems the vehicle
/// reads, and the directories the dashcam purpose must find.
#[derive(Clone, Debug)]
pub struct TeslaRequirements {
    pub min_total_size_gb: u32,
    pub min_dashcam_size_gb: u32,
    pub recommended_write_speed_mbps: u32,
    pub supported_filesystems: Vec<String>,
    pub required_folders: Vec<String>,
}

/// The filesystems the vehicle reads.
pub open spec fn spec_supported_filesystems() -> Seq<Seq<char>> {
    seq!["exfat"@, "fat32"@, "ext3"@, "ext4"@]
}

/// The directories the dashcam purpose requires, relative to the mount root.
pub open spec fn spec_required_folders() -> Seq<Seq<char>> {
    seq!["TeslaCam"@, "TeslaCam/SavedClips"@, "TeslaCam/SentryClips"@, "TeslaCam/RecentClips"@]
}

/// Returns the fixed requirement table.
pub fn get_tesla_requirements() -> (r: TeslaRequirements)
    ensures
        r.min_total_size_gb == MIN_TOTAL_SIZE_GB,
        r.min_dashcam_size_gb == MIN_DASHCAM_SIZE_GB,
        r.recommended_write_speed_mbps == RECOMMENDED_WRITE_SPEED_MBPS,
        r.supported_filesystems.deep_view() == spec_supported_filesystems(),
        r.required_folders.deep_view() == spec_required_folders(),
{
    let mut supported_filesystems: Vec<String> = Vec::new();
    supported_filesystems.push("exfat".to_owned());
    supported_filesystems.push("fat32".to_owned());
    supported_filesystems.push("ext3".to_owned());
    supported_filesystems.push("ext4".to_owned());
    let mut required_folders: Vec<String> = Vec::new();
    required_folders.push("TeslaCam".to_owned());
    required_folders.push("TeslaCam/SavedClips".to_owned());
    required_folders.push("TeslaCam/SentryClips".to_owned());
    required_folders.push("TeslaCam/RecentClips".to_owned());
    proof {
        assert(supported_filesystems.deep_view() =~= spec_supported_filesystems());
        assert(required_folders.deep_view() =~= spec_required_folders());
    }
    TeslaRequirements {
        min_total_size_gb: MIN_TOTAL_SIZE_GB,
        min_dashcam_size_gb: MIN_DASHCAM_SIZE_GB,
        recommended_write_speed_mbps: RECOMMENDED_WRITE_SPEED_MBPS,
        supported_filesystems,
        required_folders,
    }
}

/// The profile `get_recommended_tesla_config` returns for each size band.
pub open spec fn spec_recommended_config(device_size_gb: u32) -> TeslaConfig {
    if device_size_gb < 64 {
        TeslaConfig { dashcam_size_gb: 32, sentry_size_gb: 0, music_size_gb: 0, lightshow_size_gb: 0 }
    } else if device_size_gb < 128 {
        TeslaConfig {
            dashcam_size_gb: 32,
            sentry_size_gb: 0,
            music_size_gb: 16,
            lightshow_size_gb: 8,
        }
    } else {
        TeslaConfig {
            dashcam_size_gb: 64,
            sentry_size_gb: 0,
            music_size_gb: 32,
            lightshow_size_gb: 16,
        }
    }
}

/// What a formatted partition is for, as recognized from its mount point.
/// Each purpose owes a fixed set of directories at the mount root.
#[derive(Clone, Copy, Debug, PartialEq, Eq, Structural)]
pub enum PartitionPurpose {
    Dashcam,
    Music,
    Lightshow,
}

/// The purpose a mount point is recognized as: the first of the three
/// markers that occurs in the mount point's last path segment, or none.
pub open spec fn spec_classify_mount_point(path: Seq<char>) -> Option<PartitionPurpose> {
    let segment = spec_last_segment(path);
    if spec_contains(segment, "TeslaCam"@) {
        Some(PartitionPurpose::Dashcam)
    } else if spec_contains(segment, "TeslaMusic"@) {
        Some(PartitionPurpose::Music)
    } else if spec_contains(segment, "TeslaLightshow"@) {
        Some(PartitionPurpose::Lightshow)
    } else {
        None
    }
}

/// Recognizes what a mount point is for by the marker in its last path
/// segment. Mount points bearing no marker are left alone.
pub fn classify_mount_point(mount_point: &str) -> (r: Option<PartitionPurpose>)
    ensures
        r == spec_classify_mount_point(mount_point@),
{
    let segment = last_path_segment(mount_point);
    if contains_substring(segment, "TeslaCam") {
        Some(PartitionPurpose::Dashcam)
    } else if contains_substring(segment, "TeslaMusic") {
        Some(PartitionPurpose::Music)
    } else if contains_substring(segment, "TeslaLightshow") {
        Some(PartitionPurpose::Lightshow)
    } else {
        None
    }
}

/// The directories each purpose owes, relative to the mount root: the
/// dashcam purpose its clip folders, music and lightshow one folder each.
pub open spec fn spec_folders_for(purpose: PartitionPurpose) -> Seq<Seq<char>> {
    match purpose {
        PartitionPurpose::Dashcam => spec_required_folders(),
        PartitionPurpose::Music => seq!["Music"@],
        PartitionPurpose::Lightshow => seq!["LightShow"@],
    }
}

/// Lists the directories a purpose owes, relative to the mount root, parents
/// before children.
pub fn folders_for_purpose(purpose: PartitionPurpose) -> (r: Vec<String>)
    ensures
        r.deep_view() == spec_folders_for(purpose),
{
    let mut folders: Vec<String> = Vec::new();
    match purpose {
        PartitionPurpose::Dashcam => {
            folders.push("TeslaCam".to_owned());
            folders.push("TeslaCam/SavedClips".to_owned());
            folders.push("TeslaCam/SentryClips".to_owned());
            folders.push("TeslaCam/RecentClips".to_owned());
        },
        PartitionPurpose::Music => {
            folders.push("Music".to_owned());
        },
        PartitionPurpose::Lightshow => {
            folders.push("LightShow".to_owned());
        },
    }
    proof {
        assert(folders.deep_view() =~= spec_folders_for(purpose));
    }
    folders
}

/// One directory to create: a mount point and a path relative to it.
pub struct FolderTask {
    pub mount_point: String,
    pub folder: String,
}

/// The mathematical value of a [`FolderTask`].
#[verifier::ext_equal]
pub ghost struct FolderTaskView {
    pub mount_point: Seq<char>,
    pub folder: Seq<char>,
}

impl DeepView for FolderTask {
    type V = FolderTaskView;

    open spec fn deep_view(&self) -> FolderTaskView {
        FolderTaskView { mount_point: self.mount_point@, folder: self.folder@ }
    }
}

/// The directories owed under one mount point: those of its recognized
/// purpose, or none when no marker matches.
pub open spec fn spec_folder_tasks_for(mount_point: Seq<char>) -> Seq<FolderTaskView> {
    match spec_classify_mount_point(mount_point) {
        Some(purpose) => spec_folders_for(purpose).map_values(
            |folder: Seq<char>| FolderTaskView { mount_point, folder },
        ),
        None => Seq::empty(),
    }
}

/// The directories owed under a sequence of mount points, in mount-point
/// order, parents before children.
pub open spec fn spec_folder_plan(mount_points: Seq<Seq<char>>) -> Seq<FolderTaskView>
    decreases mount_points.len(),
{
    if mount_points.len() == 0 {
        Seq::empty()
    } else {
        spec_folder_plan(mount_points.drop_last()) + spec_folder_tasks_for(mount_points.last())
    }
}

/// Plans the directory tree owed after formatting: for every mount point
/// recognized as one of the three purposes, the directories of that purpose,
/// relative to the mount point.
pub fn plan_folder_setup(mount_points: &Vec<String>) -> (r: Vec<FolderTask>)
    ensures
        r.deep_view() == spec_folder_plan(mount_points.deep_view()),
{
    let ghost mounts = mount_points.deep_view();
    let mut tasks: Vec<FolderTask> = Vec::new();
    let mut i: usize = 0;
    while i < mount_points.len()
        invariant
            mounts == mount_points.deep_view(),
            0 <= i <= mount_points.len(),
            tasks.deep_view() == spec_folder_plan(mounts.take(i as int)),
        decreases mount_points.len() - i,
    {
        let mount_point = &mount_points[i];
        let ghost mount = mount_point@;
        match classify_mount_point(mount_point.as_str()) {
            Some(purpose) => {
                let folders = folders_for_purpose(purpose);
                let ghost owed = spec_folder_tasks_for(mount);
                let mut k: usize = 0;
                while k < folders.len()
                    invariant
                        mounts == mount_points.deep_view(),
                        0 <= i < mount_points.len(),
                        mount == mounts[i as int],
                        mount == mount_point@,
                        spec_classify_mount_point(mount) == Some(purpose),
                        folders.deep_view() == spec_folders_for(purpose),
                        owed == spec_folder_tasks_for(mount),
                        0 <= k <= folders.len(),
                        tasks.deep_view() == spec_folder_plan(mounts.take(i as int)) + owed.take(
                            k as int,
                        ),
                    decreases folders.len() - k,
                {
                    let task = FolderTask {
                        mount_point: mount_point.clone(),
                        folder: folders[k].clone(),
                    };
                    proof {
                        assert(owed[k as int] == FolderTaskView {
                            mount_point: mount,
                            folder: spec_folders_for(purpose)[k as int],
                        });
                        assert(folders.deep_view()[k as int] == folders@[k as int]@);
                        assert(task.deep_view() =~~= owed[k as int]);
                    }
                    tasks.push(task);
                    proof {
                        assert((spec_folder_plan(mounts.take(i as int)) + owed.take(
                            k as int,
                        )).push(owed[k as int]) =~= spec_folder_plan(mounts.take(i as int))
                            + owed.take(k as int + 1));
                        assert(tasks.deep_view() =~~= spec_folder_plan(mounts.take(i as int))
                            + owed.take(k as int + 1));
                    }
                    k = k + 1;
                }
                proof {
                    assert(owed.take(folders@.len() as int) =~= owed);
                }
            },
            None => {},
        }
        proof {
            assert(mounts.take(i as int + 1).drop_last() =~= mounts.take(i as int));
            assert(mounts.take(i as int + 1).last() == mounts[i as int]);
            assert(tasks.deep_view() =~~= spec_folder_plan(mounts.take(i as int + 1)));
        }
        i = i + 1;
    }
    proof {
        assert(mounts.take(mount_points.len() as int) =~= mounts);
    }
    tasks
}

/// The mount point one line of the macOS mount table names for the device,
/// when it names one: a line mentioning the device path contributes the text
/// between its " on " and the " (" that opens the flags.
pub open spec fn spec_macos_mount_line(line: Seq<char>, device_path: Seq<char>) -> Seq<Seq<char>> {
    if spec_contains(line, device_path) && spec_split(line, " on "@).len() >= 2 {
        seq![spec_split(spec_split(line, " on "@)[1], " ("@)[0]]
    } else {
        Seq::empty()
    }
}

/// The mount points the macOS mount table reports for the device, in table
/// order. The table's lines are taken apart at every newline.
pub open spec fn spec_macos_mount_points(
    lines: Seq<Seq<char>>,
    device_path: Seq<char>,
) -> Seq<Seq<char>>
    decreases lines.len(),
{
    if lines.len() == 0 {
        Seq::empty()
    } else {
        spec_macos_mount_points(lines.drop_last(), device_path) + spec_macos_mount_line(
            lines.last(),
            device_path,
        )
    }
}

/// Reads the device's mount points out of the text of the macOS mount
/// table.
pub fn parse_macos_mount_points(output: &str, device_path: &str) -> (r: Vec<String>)
    ensures
        r.deep_view() == spec_macos_mount_points(spec_split(output@, "\n"@), device_path@),
{
    proof {
        reveal_strlit("\n");
        reveal_strlit(" on ");
        reveal_strlit(" (");
    }
    let lines = split_by(output, "\n");
    let ghost line_views = spec_split(output@, "\n"@);
    let mut mount_points: Vec<String> = Vec::new();
    let mut i: usize = 0;
    while i < lines.len()
        invariant
            lines.deep_view() == line_views,
            0 <= i <= lines.len(),
            mount_points.deep_view() == spec_macos_mount_points(
                line_views.take(i as int),
                device_path@,
            ),
        decreases lines.len() - i,
    {
        let line = &lines[i];
        proof {
            reveal_strlit(" on ");
            reveal_strlit(" (");
        }
        if contains_substring(line.as_str(), device_path) {
            let on_parts = split_by(line.as_str(), " on ");
            if on_parts.len() >= 2 {
                let paren_parts = split_by(on_parts[1].as_str(), " (");
                proof {
                    crate::text::lemma_split_has_a_part(on_parts@[1]@, " ("@);
                }
                mount_points.push(paren_parts[0].clone());
            }
        }
        proof {
            assert(line_views.take(i as int + 1).drop_last() =~= line_views.take(i as int));
            assert(line_views.take(i as int + 1).last() == line_views[i as int]);
            assert(mount_points.deep_view() =~~= spec_macos_mount_points(
                line_views.take(i as int + 1),
                device_path@,
            ));
        }
        i = i + 1;
    }
    proof {
        assert(line_views.take(lines@.len() as int) =~= line_views);
    }
    mount_points
}

/// The mount point one line of the Linux mount table names for the device,
/// when it names one: a line mentioning the device path contributes its
/// third space-separated field.
pub open spec fn spec_linux_mount_line(line: Seq<char>, device_path: Seq<char>) -> Seq<Seq<char>> {
    if spec_contains(line, device_path) && spec_nonempty_parts(spec_split(line, " "@)).len() >= 3 {
        seq![spec_nonempty_parts(spec_split(line, " "@))[2]]
    } else {
        Seq::empty()
    }
}

/// The mount points the Linux mount table reports for the device, in table
/// order.
pub open spec fn spec_linux_mount_points(
    lines: Seq<Seq<char>>,
    device_path: Seq<char>,
) -> Seq<Seq<char>>
    decreases lines.len(),
{
    if lines.len() == 0 {
        Seq::empty()
    } else {
        spec_linux_mount_points(lines.drop_last(), device_path) + spec_linux_mount_line(
            lines.last(),
            device_path,
        )
    }
}

/// Reads the device's mount points out of the text of the Linux mount
/// table.
pub fn parse_linux_mount_points(output: &str, device_path: &str) -> (r: Vec<String>)
    ensures
        r.deep_view() == spec_linux_mount_points(spec_split(output@, "\n"@), device_path@),
{
    proof {
        reveal_strlit("\n");
        reveal_strlit(" ");
    }
    let lines = split_by(output, "\n");
    let ghost line_views = spec_split(output@, "\n"@);
    let mut mount_points: Vec<String> = Vec::new();
    let mut i: usize = 0;
    while i < lines.len()
        invariant
            lines.deep_view() == line_views,
            0 <= i <= lines.len(),
            mount_points.deep_view() == spec_linux_mount_points(
                line_views.take(i as int),
                device_path@,
            ),
        decreases lines.len() - i,
    {
        let line = &lines[i];
        proof {
            reveal_strlit(" ");
        }
        if contains_substring(line.as_str(), device_path) {
            let raw_parts = split_by(line.as_str(), " ");
            let fields = nonempty_parts(&raw_parts);
            if fields.len() >= 3 {
                mount_points.push(fields[2].clone());
            }
        }
        proof {
            assert(line_views.take(i as int + 1).drop_last() =~= line_views.take(i as int));
            assert(line_views.take(i as int + 1).last() == line_views[i as int]);
            assert(mount_points.deep_view() =~~= spec_linux_mount_points(
                line_views.take(i as int + 1),
                device_path@,
            ));
        }
        i = i + 1;
    }
    proof {
        assert(line_views.take(lines@.len() as int) =~= line_views);
    }
    mount_points
}

/// Planning the directory tree is idempotent: a second planning pass over
/// the same mount points asks for exactly the directories the first did, so
/// a second installation run creates nothing new and alters nothing.
pub proof fn lemma_folder_plan_idempotent(
    mount_points: Seq<Seq<char>>,
    first: Seq<FolderTaskView>,
    second: Seq<FolderTaskView>,
)
    requires
        first == spec_folder_plan(mount_points),
        second == spec_folder_plan(mount_points),
    ensures
        first == second,
{
}

} // verus!
