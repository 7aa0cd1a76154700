//! Partition planning and validation: the capacity validator, the
//! recommended-defaults planner and the compilation of a validated plan into
//! the ordered command sequence of a platform partitioning backend.
use vstd::prelude::*;

use crate::tesla::{
    cam_partition, lightshow_partition, music_partition, spec_cam_partition,
    spec_lightshow_partition, spec_music_partition,
};
use crate::text::{spec_u64_decimal, str_eq, u64_to_string};
use crate::{CapacityExceeded, ExecutionError, PartitionConfig, PartitionView, UsbDevice};

verus! {

/// One invocation of an external partitioning tool: the program to run and
/// its arguments, in order.
#[derive(Debug)]
pub struct ToolCommand {
    pub program: String,
    pub args: Vec<String>,
}

/// The mathematical value of a [`ToolCommand`].
#[verifier::ext_equal]
pub ghost struct ToolCommandView {
    pub program: Seq<char>,
    pub args: Seq<Seq<char>>,
}

impl DeepView for ToolCommand {
    type V = ToolCommandView;

    open spec fn deep_view(&self) -> ToolCommandView {
        ToolCommandView { program: self.program@, args: self.args.deep_view() }
    }
}

/// One step of a partitioning backend's command sequence. `partition` names
/// the plan entry the step realizes, for steps whose failure is reported
/// with the offending partition's name.
#[derive(Debug)]
pub struct ExecStep {
    pub command: ToolCommand,
    pub partition: Option<String>,
}

/// The mathematical value of an [`ExecStep`].
#[verifier::ext_equal]
pub ghost struct ExecStepView {
    pub command: ToolCommandView,
    pub partition: Option<Seq<char>>,
}

impl DeepView for ExecStep {
    type V = ExecStepView;

    open spec fn deep_view(&self) -> ExecStepView {
        ExecStepView { command: self.command.deep_view(), partition: self.partition.deep_view() }
    }
}

/// The state of one run of a backend's command sequence. The surrounding
/// application asks for the pending command, runs it, and reports the
/// outcome; after a reported failure, or once every step has succeeded, no
/// further command is handed out. No rollback is attempted: the steps before
/// a failure stay applied.
#[derive(Debug)]
pub struct PlanExecution {
    pub steps: Vec<ExecStep>,
    pub next: usize,
    pub failed: bool,
}

impl PlanExecution {
    /// The cursor never passes the end of the step list.
    pub open spec fn wf(&self) -> bool {
        self.next <= self.steps@.len()
    }

    /// The step whose command is to be run next: none once the plan is
    /// exhausted or a failure was reported.
    pub open spec fn spec_pending(&self) -> Option<ExecStepView> {
        if self.failed || self.next >= self.steps@.len() {
            None
        } else {
            Some(self.steps.deep_view()[self.next as int])
        }
    }

    /// Starts an execution at the first step of a backend's sequence.
    pub fn new(steps: Vec<ExecStep>) -> (r: PlanExecution)
        ensures
            r.wf(),
            r.steps == steps,
            r.next == 0,
            !r.failed,
    {
        PlanExecution { steps, next: 0, failed: false }
    }

    /// The command to run next, or `None` when the execution is over.
    pub fn next_command(&self) -> (r: Option<&ToolCommand>)
        requires
            self.wf(),
        ensures
            match r {
                Some(c) => self.spec_pending() matches Some(s) && c.deep_view() == s.command,
                None => self.spec_pending() is None,
            },
    {
        if self.failed || self.next >= self.steps.len() {
            None
        } else {
            Some(&self.steps[self.next].command)
        }
    }

    /// Whether every step has been run and reported successful.
    pub fn is_complete(&self) -> (r: bool)
        requires
            self.wf(),
        ensures
            r == (!self.failed && self.next == self.steps@.len()),
    {
        !self.failed && self.next == self.steps.len()
    }

    /// Takes the outcome of the pending command. On success the cursor moves
    /// to the next step; on failure the execution halts for good and the
    /// returned error carries the failing step's partition name, where it
    /// has one, and the tool's diagnostic text.
    pub fn report_outcome(&mut self, success: bool, stderr: String) -> (r: Result<
        (),
        ExecutionError,
    >)
        requires
            old(self).wf(),
            old(self).spec_pending() is Some,
        ensures
            final(self).wf(),
            final(self).steps == old(self).steps,
            success ==> r is Ok && final(self).next == old(self).next + 1 && !final(self).failed,
            !success ==> final(self).failed && (r matches Err(ExecutionError::BackendFailed {
                partition,
                stderr: s,
            }) && partition.deep_view() == old(self).spec_pending()->Some_0.partition && s@
                == stderr@),
    {
        let len = self.steps.len();
        if success {
            if self.next < len {
                self.next = self.next + 1;
            }
            Ok(())
        } else {
            self.failed = true;
            let partition = match &self.steps[self.next].partition {
                Some(name) => Some(name.clone()),
                None => None,
            };
            Err(ExecutionError::BackendFailed { partition, stderr })
        }
    }
}

/// A failure is terminal: once a step has been reported failed, the
/// execution hands out no further command, so the steps after the failing
/// one are never attempted.
pub proof fn lemma_no_command_after_failure(e: PlanExecution)
    requires
        e.failed,
    ensures
        e.spec_pending() is None,
{
}

/// Bytes in one GB, with 1024-based multipliers throughout.
pub const BYTES_PER_GB: u64 = 1024 * 1024 * 1024;

/// Total size of a plan in bytes: the sum of the entries' sizes in GB, each
/// converted with 1024-based multipliers.
pub open spec fn plan_total_bytes(plan: Seq<PartitionView>) -> int
    decreases plan.len(),
{
    if plan.len() == 0 {
        0
    } else {
        plan_total_bytes(plan.drop_last()) + plan.last().size_gb * BYTES_PER_GB
    }
}

/// An `int` clamped into `u64` range.
pub open spec fn clamp_to_u64(n: int) -> u64 {
    if n > u64::MAX {
        u64::MAX
    } else if n < 0 {
        0
    } else {
        n as u64
    }
}

/// The capacity validator: a plan is accepted exactly when its total size in
/// bytes fits within the device's reported capacity; a total equal to the
/// capacity is accepted. Must run before any destructive operation.
pub fn validate_partition_config(device: &UsbDevice, partitions: &Vec<PartitionConfig>) -> (r:
    Result<(), CapacityExceeded>)
    ensures
        r is Ok <==> plan_total_bytes(partitions.deep_view()) <= device.size,
        r matches Err(e) ==> e.requested == clamp_to_u64(plan_total_bytes(partitions.deep_view()))
            && e.available == device.size,
{
    let ghost plan = partitions.deep_view();
    let mut total: u64 = 0;
    let mut saturated = false;
    let mut i: usize = 0;
    while i < partitions.len()
        invariant
            0 <= i <= partitions.len(),
            plan == partitions.deep_view(),
            !saturated ==> total == plan_total_bytes(plan.take(i as int)),
            saturated ==> total == u64::MAX && plan_total_bytes(plan.take(i as int)) > u64::MAX,
        decreases partitions.len() - i,
    {
        let gb = partitions[i].size_gb;
        proof {
            assert(gb as u64 * BYTES_PER_GB <= 0xFFFF_FFFF_C000_0000u64) by (nonlinear_arith)
                requires gb <= u32::MAX;
        }
        let bytes = (gb as u64) * BYTES_PER_GB;
        proof {
            assert(plan.take(i as int + 1).drop_last() =~= plan.take(i as int));
            assert(plan.take(i as int + 1).last() == plan[i as int]);
        }
        match total.checked_add(bytes) {
            Some(t) => {
                if !saturated {
                    total = t;
                }
            },
            None => {
                saturated = true;
                total = u64::MAX;
            },
        }
        i = i + 1;
    }
    proof {
        assert(plan.take(partitions.len() as int) =~= plan);
    }
    if saturated {
        Err(CapacityExceeded { requested: u64::MAX, available: device.size })
    } else if total > device.size {
        Err(CapacityExceeded { requested: total, available: device.size })
    } else {
        Ok(())
    }
}

/// The heuristic split of a bare total size in GB into a plan. The dashcam
/// partition takes `min(32, total / 2)` GB. Of the remainder, when it is at
/// least 8 GB, music takes `min(remainder - 4, remainder / 2)` GB, and what
/// is then left becomes the lightshow partition if it reaches 2 GB;
/// otherwise those GB stay unallocated. Every emitted entry has a positive
/// size: a total too small to give the dashcam a whole GB yields no entry.
pub open spec fn spec_recommended_plan(total_size_gb: u32) -> Seq<PartitionView> {
    let dashcam = if total_size_gb / 2 < 32 {
        total_size_gb as int / 2
    } else {
        32
    };
    let remaining = total_size_gb - dashcam;
    (if dashcam > 0 {
        seq![spec_cam_partition(dashcam as u32)]
    } else {
        Seq::empty()
    }) + if remaining >= 8 {
        let music = if remaining / 2 < remaining - 4 {
            remaining / 2
        } else {
            remaining - 4
        };
        seq![spec_music_partition(music as u32)] + if remaining - music >= 2 {
            seq![spec_lightshow_partition((remaining - music) as u32)]
        } else {
            Seq::empty()
        }
    } else {
        Seq::empty()
    }
}

/// Derives the recommended plan for a caller that supplies only the device's
/// total size in GB.
pub fn get_recommended_tesla_partitions(total_size_gb: u32) -> (r: Vec<PartitionConfig>)
    ensures
        r.deep_view() == spec_recommended_plan(total_size_gb),
{
    let mut partitions: Vec<PartitionConfig> = Vec::new();
    let half = total_size_gb / 2;
    let dashcam_size = if half < 32 {
        half
    } else {
        32
    };
    let remaining = total_size_gb - dashcam_size;
    if dashcam_size > 0 {
        partitions.push(cam_partition(dashcam_size));
    }
    if remaining >= 8 {
        let half_remaining = remaining / 2;
        let music_size = if half_remaining < remaining - 4 {
            half_remaining
        } else {
            remaining - 4
        };
        partitions.push(music_partition(music_size));
        let lightshow_size = remaining - music_size;
        if lightshow_size >= 2 {
            partitions.push(lightshow_partition(lightshow_size));
        }
    }
    proof {
        assert(partitions.deep_view() =~= spec_recommended_plan(total_size_gb));
    }
    partitions
}

/// diskutil's vocabulary for a filesystem kind; exFAT where the kind is not
/// one it knows.
pub open spec fn spec_macos_fs_name(fs: Seq<char>) -> Seq<char> {
    if fs == "exfat"@ {
        "ExFAT"@
    } else if fs == "fat32"@ {
        "MS-DOS FAT32"@
    } else if fs == "hfs+"@ {
        "HFS+"@
    } else {
        "ExFAT"@
    }
}

/// Translates a filesystem kind into diskutil's vocabulary.
pub fn macos_filesystem_name(filesystem: &str) -> (r: &'static str)
    ensures
        r@ == spec_macos_fs_name(filesystem@),
{
    if str_eq(filesystem, "exfat") {
        "ExFAT"
    } else if str_eq(filesystem, "fat32") {
        "MS-DOS FAT32"
    } else if str_eq(filesystem, "hfs+") {
        "HFS+"
    } else {
        "ExFAT"
    }
}

/// The whole-device erase that opens the diskutil sequence: back to GPT
/// under a placeholder name.
pub open spec fn spec_macos_erase_step(path: Seq<char>) -> ExecStepView {
    ExecStepView {
        command: ToolCommandView {
            program: "diskutil"@,
            args: seq!["eraseDisk"@, "GPT"@, "TempName"@, path],
        },
        partition: None,
    }
}

/// The one partitioning call a plan entry becomes in the diskutil sequence.
pub open spec fn spec_macos_partition_step(path: Seq<char>, p: PartitionView) -> ExecStepView {
    ExecStepView {
        command: ToolCommandView {
            program: "diskutil"@,
            args: seq![
                "partitionDisk"@,
                path,
                "GPT"@,
                spec_macos_fs_name(p.filesystem),
                p.name,
                spec_u64_decimal(p.size_gb as nat) + "GB"@,
            ],
        },
        partition: Some(p.name),
    }
}

/// The diskutil command sequence for a plan: erase the whole device, then
/// one partitioning call per entry, in plan order.
pub open spec fn spec_macos_steps(path: Seq<char>, plan: Seq<PartitionView>) -> Seq<ExecStepView> {
    seq![spec_macos_erase_step(path)] + plan.map_values(
        |p: PartitionView| spec_macos_partition_step(path, p),
    )
}

/// Compiles a plan into the diskutil command sequence for the given device.
pub fn macos_command_steps(device: &UsbDevice, partitions: &Vec<PartitionConfig>) -> (r: Vec<
    ExecStep,
>)
    ensures
        r.deep_view() == spec_macos_steps(device.path@, partitions.deep_view()),
{
    let ghost plan = partitions.deep_view();
    let ghost path = device.path@;
    let mut steps: Vec<ExecStep> = Vec::new();
    let mut erase_args: Vec<String> = Vec::new();
    erase_args.push("eraseDisk".to_owned());
    erase_args.push("GPT".to_owned());
    erase_args.push("TempName".to_owned());
    erase_args.push(device.path.clone());
    steps.push(
        ExecStep {
            command: ToolCommand { program: "diskutil".to_owned(), args: erase_args },
            partition: None,
        },
    );
    proof {
        assert(steps.deep_view() =~~= spec_macos_steps(path, plan.take(0)));
    }
    let mut i: usize = 0;
    while i < partitions.len()
        invariant
            plan == partitions.deep_view(),
            path == device.path@,
            0 <= i <= partitions.len(),
            steps.deep_view() == spec_macos_steps(path, plan.take(i as int)),
        decreases partitions.len() - i,
    {
        let p = &partitions[i];
        let mut args: Vec<String> = Vec::new();
        args.push("partitionDisk".to_owned());
        args.push(device.path.clone());
        args.push("GPT".to_owned());
        args.push(macos_filesystem_name(p.filesystem.as_str()).to_owned());
        args.push(p.name.clone());
        let mut size_arg = u64_to_string(p.size_gb as u64);
        size_arg.append("GB");
        args.push(size_arg);
        proof {
            assert(args.deep_view() =~~= spec_macos_partition_step(path, plan[i as int]).command.args);
        }
        steps.push(
            ExecStep {
                command: ToolCommand { program: "diskutil".to_owned(), args },
                partition: Some(p.name.clone()),
            },
        );
        proof {
            assert(steps.deep_view().last() =~~= spec_macos_partition_step(path, plan[i as int]));
            assert(plan.take(i as int + 1).map_values(
                |q: PartitionView| spec_macos_partition_step(path, q),
            ) =~= plan.take(i as int).map_values(
                |q: PartitionView| spec_macos_partition_step(path, q),
            ).push(spec_macos_partition_step(path, plan[i as int])));
            assert((seq![spec_macos_erase_step(path)] + plan.take(i as int).map_values(
                |q: PartitionView| spec_macos_partition_step(path, q),
            )).push(spec_macos_partition_step(path, plan[i as int])) =~= seq![
                spec_macos_erase_step(path),
            ] + plan.take(i as int).map_values(
                |q: PartitionView| spec_macos_partition_step(path, q),
            ).push(spec_macos_partition_step(path, plan[i as int])));
            assert(steps.deep_view() =~~= spec_macos_steps(path, plan.take(i as int + 1)));
        }
        i = i + 1;
    }
    proof {
        assert(plan.take(partitions.len() as int) =~= plan);
    }
    steps
}

/// The disk number a device path selects in a diskpart script. The script
/// always targets the first disk.
pub fn extract_disk_number(path: &str) -> (r: u32)
    ensures
        r == 0,
{
    0
}

/// The drive letter a freshly formatted partition is assigned. The script
/// always assigns the last letter.
pub fn get_available_drive_letter() -> (r: char)
    ensures
        r == 'Z',
{
    'Z'
}

fn drive_letter_text(letter: char) -> (r: &'static str)
    requires
        letter == 'Z',
    ensures
        r@ =~= seq![letter],
{
    proof {
        reveal_strlit("Z");
    }
    "Z"
}

/// diskpart's format line for a filesystem kind; exFAT where the kind is
/// not one it maps.
pub open spec fn spec_diskpart_format_line(fs: Seq<char>) -> Seq<char> {
    if fs == "exfat"@ {
        "format fs=exfat quick"@
    } else if fs == "fat32"@ {
        "format fs=fat32 quick"@
    } else if fs == "ntfs"@ {
        "format fs=ntfs quick"@
    } else {
        "format fs=exfat quick"@
    }
}

/// Picks diskpart's format line for a filesystem kind.
pub fn diskpart_format_line(filesystem: &str) -> (r: &'static str)
    ensures
        r@ == spec_diskpart_format_line(filesystem@),
{
    if str_eq(filesystem, "exfat") {
        "format fs=exfat quick"
    } else if str_eq(filesystem, "fat32") {
        "format fs=fat32 quick"
    } else if str_eq(filesystem, "ntfs") {
        "format fs=ntfs quick"
    } else {
        "format fs=exfat quick"
    }
}

/// The script lines that realize the plan entry at `i`: create the
/// partition sized in MB, select and activate it, format it, assign the
/// fixed free drive letter, and apply the label.
pub open spec fn spec_diskpart_entry(p: PartitionView, i: int) -> Seq<char> {
    "create partition primary size="@ + spec_u64_decimal((p.size_gb * 1024) as nat) + "\n"@
        + "select partition "@ + spec_u64_decimal((i + 1) as nat) + "\n"@ + "active\n"@
        + spec_diskpart_format_line(p.filesystem) + "\n"@ + "assign letter="@ + seq!['Z'] + "\n"@
        + "label="@ + p.name + "\n"@
}

/// The script lines of the first `n` plan entries, in order.
pub open spec fn spec_diskpart_entries(plan: Seq<PartitionView>, n: int) -> Seq<char>
    decreases n,
{
    if n <= 0 {
        Seq::empty()
    } else {
        spec_diskpart_entries(plan, n - 1) + spec_diskpart_entry(plan[n - 1], n - 1)
    }
}

/// The whole diskpart script for a plan: select the disk, destroy the
/// existing layout, convert to GPT, realize each entry in order, and exit.
pub open spec fn spec_diskpart_script(disk: nat, plan: Seq<PartitionView>) -> Seq<char> {
    "select disk "@ + spec_u64_decimal(disk) + "\n"@ + "clean\n"@ + "convert gpt\n"@
        + spec_diskpart_entries(plan, plan.len() as int) + "exit\n"@
}

/// Serializes a plan into the diskpart script that realizes it on the
/// device, non-interactively.
#[verifier::rlimit(30)]
pub fn create_diskpart_script(device: &UsbDevice, partitions: &Vec<PartitionConfig>) -> (r: String)
    ensures
        r@ == spec_diskpart_script(0, partitions.deep_view()),
{
    let ghost plan = partitions.deep_view();
    let disk = extract_disk_number(device.path.as_str());
    let mut script = String::new();
    script.append("select disk ");
    let disk_text = u64_to_string(disk as u64);
    script.append(disk_text.as_str());
    script.append("\n");
    script.append("clean\n");
    script.append("convert gpt\n");
    let ghost header = "select disk "@ + spec_u64_decimal(0) + "\n"@ + "clean\n"@
        + "convert gpt\n"@;
    proof {
        assert(script@ =~= header + spec_diskpart_entries(plan, 0));
    }
    let mut i: usize = 0;
    while i < partitions.len()
        invariant
            plan == partitions.deep_view(),
            header == "select disk "@ + spec_u64_decimal(0) + "\n"@ + "clean\n"@
                + "convert gpt\n"@,
            0 <= i <= partitions.len(),
            script@ == header + spec_diskpart_entries(plan, i as int),
        decreases partitions.len() - i,
    {
        let p = &partitions[i];
        let gb = p.size_gb;
        proof {
            assert(gb as u64 * 1024 <= 0x3FF_FFFF_FC00u64) by (nonlinear_arith)
                requires gb <= u32::MAX;
        }
        script.append("create partition primary size=");
        let size_text = u64_to_string((gb as u64) * 1024);
        script.append(size_text.as_str());
        script.append("\n");
        script.append("select partition ");
        let index_text = u64_to_string((i as u64) + 1);
        script.append(index_text.as_str());
        script.append("\n");
        script.append("active\n");
        script.append(diskpart_format_line(p.filesystem.as_str()));
        script.append("\n");
        script.append("assign letter=");
        let letter = get_available_drive_letter();
        script.append(drive_letter_text(letter));
        script.append("\n");
        script.append("label=");
        script.append(p.name.as_str());
        script.append("\n");
        proof {
            assert(script@ =~= header + spec_diskpart_entries(plan, i as int + 1));
        }
        i = i + 1;
    }
    script.append("exit\n");
    proof {
        assert(script@ =~= spec_diskpart_script(0, plan));
    }
    script
}

/// Sectors of 512 bytes in one GB.
pub const SECTORS_PER_GB: u64 = 2 * 1024 * 1024;

/// The length of one plan entry in 512-byte sectors.
pub open spec fn spec_partition_sectors(p: PartitionView) -> int {
    p.size_gb * SECTORS_PER_GB
}

/// Total length of a plan in 512-byte sectors.
pub open spec fn spec_plan_total_sectors(plan: Seq<PartitionView>) -> int
    decreases plan.len(),
{
    if plan.len() == 0 {
        0
    } else {
        spec_plan_total_sectors(plan.drop_last()) + spec_partition_sectors(plan.last())
    }
}

proof fn lemma_plan_sectors_bytes(plan: Seq<PartitionView>)
    ensures
        plan_total_bytes(plan) == 512 * spec_plan_total_sectors(plan),
    decreases plan.len(),
{
    if plan.len() > 0 {
        lemma_plan_sectors_bytes(plan.drop_last());
        let gb = plan.last().size_gb;
        assert(gb * BYTES_PER_GB == 512 * (gb * SECTORS_PER_GB)) by (nonlinear_arith);
    }
}

proof fn lemma_plan_sectors_nonneg(plan: Seq<PartitionView>)
    ensures
        spec_plan_total_sectors(plan) >= 0,
    decreases plan.len(),
{
    if plan.len() > 0 {
        lemma_plan_sectors_nonneg(plan.drop_last());
    }
}

proof fn lemma_plan_sectors_prefix(plan: Seq<PartitionView>, i: int)
    requires
        0 <= i <= plan.len(),
    ensures
        0 <= spec_plan_total_sectors(plan.take(i)) <= spec_plan_total_sectors(plan),
    decreases plan.len() - i,
{
    if i < plan.len() {
        lemma_plan_sectors_prefix(plan, i + 1);
        lemma_plan_sectors_nonneg(plan.take(i));
        assert(plan.take(i + 1).drop_last() =~= plan.take(i));
        assert(plan.take(i + 1).last() == plan[i]);
        assert(plan[i].size_gb * SECTORS_PER_GB >= 0) by (nonlinear_arith);
    } else {
        assert(plan.take(i) =~= plan);
        lemma_plan_sectors_nonneg(plan);
    }
}

/// The first sector of the plan entry at `i`: partitions sit back to back,
/// the first starting at sector 1, each next one at the sector after its
/// predecessor's end.
pub open spec fn spec_start_sector(plan: Seq<PartitionView>, i: int) -> int {
    1 + i + spec_plan_total_sectors(plan.take(i))
}

/// The parted call that writes the GPT label.
pub open spec fn spec_linux_label_step(path: Seq<char>) -> ExecStepView {
    ExecStepView {
        command: ToolCommandView { program: "parted"@, args: seq![path, "mklabel"@, "gpt"@] },
        partition: None,
    }
}

/// The parted call that creates the plan entry at `i`, bounded by its start
/// and end sectors. The step realizes exactly that entry, so a failure of it
/// is reported under the entry's name.
pub open spec fn spec_linux_mkpart_step(plan: Seq<PartitionView>, path: Seq<char>, i: int) -> ExecStepView {
    ExecStepView {
        command: ToolCommandView {
            program: "parted"@,
            args: seq![
                path,
                "mkpart"@,
                "primary"@,
                spec_u64_decimal(spec_start_sector(plan, i) as nat) + "s"@,
                spec_u64_decimal(
                    (spec_start_sector(plan, i) + spec_partition_sectors(plan[i])) as nat,
                ) + "s"@,
            ],
        },
        partition: Some(plan[i].name),
    }
}

/// The filesystem-creation tool for a filesystem kind; mkfs.exfat where the
/// kind is not one the backend maps.
pub open spec fn spec_linux_mkfs_name(fs: Seq<char>) -> Seq<char> {
    if fs == "exfat"@ {
        "mkfs.exfat"@
    } else if fs == "fat32"@ {
        "mkfs.fat"@
    } else if fs == "ext4"@ {
        "mkfs.ext4"@
    } else {
        "mkfs.exfat"@
    }
}

/// Picks the filesystem-creation tool for a filesystem kind.
pub fn linux_mkfs_name(filesystem: &str) -> (r: &'static str)
    ensures
        r@ == spec_linux_mkfs_name(filesystem@),
{
    if str_eq(filesystem, "exfat") {
        "mkfs.exfat"
    } else if str_eq(filesystem, "fat32") {
        "mkfs.fat"
    } else if str_eq(filesystem, "ext4") {
        "mkfs.ext4"
    } else {
        "mkfs.exfat"
    }
}

/// The formatting call for the plan entry at `i`: its partition's device
/// path is the device path with a one-based index appended after `p`.
pub open spec fn spec_linux_mkfs_step(p: PartitionView, path: Seq<char>, i: int) -> ExecStepView {
    ExecStepView {
        command: ToolCommandView {
            program: spec_linux_mkfs_name(p.filesystem),
            args: seq!["-L"@, p.name, path + "p"@ + spec_u64_decimal((i + 1) as nat)],
        },
        partition: Some(p.name),
    }
}

/// The parted command sequence for a plan: write a GPT label, create every
/// partition back to back with a running sector cursor, then format each
/// one, both passes in plan order.
pub open spec fn spec_linux_steps(path: Seq<char>, plan: Seq<PartitionView>) -> Seq<ExecStepView> {
    seq![spec_linux_label_step(path)] + Seq::new(
        plan.len(),
        |i: int| spec_linux_mkpart_step(plan, path, i),
    ) + Seq::new(plan.len(), |i: int| spec_linux_mkfs_step(plan[i], path, i))
}

/// Compiles a plan into the parted command sequence for the given device.
/// The plan must already have passed the capacity validator, and its length
/// must leave the sector cursor within machine range.
pub fn linux_command_steps(device: &UsbDevice, partitions: &Vec<PartitionConfig>) -> (r: Vec<
    ExecStep,
>)
    requires
        plan_total_bytes(partitions.deep_view()) <= device.size,
        partitions@.len() <= 0xFFFF_FFFF,
    ensures
        r.deep_view() == spec_linux_steps(device.path@, partitions.deep_view()),
{
    let ghost plan = partitions.deep_view();
    let ghost path = device.path@;
    proof {
        lemma_plan_sectors_bytes(plan);
    }
    let mut steps: Vec<ExecStep> = Vec::new();
    let mut label_args: Vec<String> = Vec::new();
    label_args.push(device.path.clone());
    label_args.push("mklabel".to_owned());
    label_args.push("gpt".to_owned());
    steps.push(
        ExecStep {
            command: ToolCommand { program: "parted".to_owned(), args: label_args },
            partition: None,
        },
    );
    proof {
        assert(steps.deep_view() =~~= seq![spec_linux_label_step(path)] + Seq::new(
            0,
            |j: int| spec_linux_mkpart_step(plan, path, j),
        ));
    }
    let mut start: u64 = 1;
    let mut i: usize = 0;
    while i < partitions.len()
        invariant
            plan == partitions.deep_view(),
            path == device.path@,
            plan_total_bytes(plan) <= device.size,
            plan_total_bytes(plan) == 512 * spec_plan_total_sectors(plan),
            plan.len() <= 0xFFFF_FFFF,
            0 <= i <= partitions.len(),
            start == spec_start_sector(plan, i as int),
            steps.deep_view() == seq![spec_linux_label_step(path)] + Seq::new(
                i as nat,
                |j: int| spec_linux_mkpart_step(plan, path, j),
            ),
        decreases partitions.len() - i,
    {
        let p = &partitions[i];
        let gb = p.size_gb;
        proof {
            assert(gb as u64 * SECTORS_PER_GB <= 0x1F_FFFF_FFE0_0000u64) by (nonlinear_arith)
                requires gb <= u32::MAX;
            lemma_plan_sectors_prefix(plan, i as int);
            lemma_plan_sectors_prefix(plan, i as int + 1);
            assert(plan.take(i as int + 1).drop_last() =~= plan.take(i as int));
            assert(plan.take(i as int + 1).last() == plan[i as int]);
        }
        let sectors = (gb as u64) * SECTORS_PER_GB;
        let end = start + sectors;
        let mut args: Vec<String> = Vec::new();
        args.push(device.path.clone());
        args.push("mkpart".to_owned());
        args.push("primary".to_owned());
        let mut start_arg = u64_to_string(start);
        start_arg.append("s");
        args.push(start_arg);
        let mut end_arg = u64_to_string(end);
        end_arg.append("s");
        args.push(end_arg);
        proof {
            assert(args.deep_view() =~~= spec_linux_mkpart_step(plan, path, i as int).command.args);
        }
        steps.push(
            ExecStep {
                command: ToolCommand { program: "parted".to_owned(), args },
                partition: Some(p.name.clone()),
            },
        );
        proof {
            assert(steps.deep_view().last() =~~= spec_linux_mkpart_step(plan, path, i as int));
            assert(Seq::new(i as nat + 1, |j: int| spec_linux_mkpart_step(plan, path, j)) =~=
                Seq::new(i as nat, |j: int| spec_linux_mkpart_step(plan, path, j)).push(
                spec_linux_mkpart_step(plan, path, i as int),
            ));
            assert((seq![spec_linux_label_step(path)] + Seq::new(
                i as nat,
                |j: int| spec_linux_mkpart_step(plan, path, j),
            )).push(spec_linux_mkpart_step(plan, path, i as int)) =~= seq![
                spec_linux_label_step(path),
            ] + Seq::new(i as nat + 1, |j: int| spec_linux_mkpart_step(plan, path, j)));
            assert(steps.deep_view() =~~= seq![spec_linux_label_step(path)] + Seq::new(
                i as nat + 1,
                |j: int| spec_linux_mkpart_step(plan, path, j),
            ));
        }
        start = end + 1;
        i = i + 1;
    }
    let ghost after_mkpart = seq![spec_linux_label_step(path)] + Seq::new(
        plan.len(),
        |j: int| spec_linux_mkpart_step(plan, path, j),
    );
    let mut k: usize = 0;
    while k < partitions.len()
        invariant
            plan == partitions.deep_view(),
            path == device.path@,
            plan.len() <= 0xFFFF_FFFF,
            0 <= k <= partitions.len(),
            after_mkpart == seq![spec_linux_label_step(path)] + Seq::new(
                plan.len(),
                |j: int| spec_linux_mkpart_step(plan, path, j),
            ),
            steps.deep_view() == after_mkpart + Seq::new(
                k as nat,
                |j: int| spec_linux_mkfs_step(plan[j], path, j),
            ),
        decreases partitions.len() - k,
    {
        let p = &partitions[k];
        let program = linux_mkfs_name(p.filesystem.as_str()).to_owned();
        let mut partition_path = device.path.clone();
        partition_path.append("p");
        let index_arg = u64_to_string((k as u64) + 1);
        partition_path.append(index_arg.as_str());
        let mut args: Vec<String> = Vec::new();
        args.push("-L".to_owned());
        args.push(p.name.clone());
        args.push(partition_path);
        steps.push(
            ExecStep { command: ToolCommand { program, args }, partition: Some(p.name.clone()) },
        );
        proof {
            assert(Seq::new(k as nat + 1, |j: int| spec_linux_mkfs_step(plan[j], path, j)) =~=
                Seq::new(k as nat, |j: int| spec_linux_mkfs_step(plan[j], path, j)).push(
                spec_linux_mkfs_step(plan[k as int], path, k as int),
            ));
            assert((after_mkpart + Seq::new(
                k as nat,
                |j: int| spec_linux_mkfs_step(plan[j], path, j),
            )).push(spec_linux_mkfs_step(plan[k as int], path, k as int)) =~= after_mkpart
                + Seq::new(k as nat + 1, |j: int| spec_linux_mkfs_step(plan[j], path, j)));
            assert(steps.deep_view() =~~= after_mkpart + Seq::new(
                k as nat + 1,
                |j: int| spec_linux_mkfs_step(plan[j], path, j),
            ));
        }
        k = k + 1;
    }
    steps
}

/// Validates a plan against the device's capacity and, when it fits,
/// serializes it into the diskpart script that realizes it. Nothing
/// destructive is prepared for a plan the capacity validator rejects.
pub fn prepare_windows_script(device: &UsbDevice, partitions: &Vec<PartitionConfig>) -> (r: Result<
    String,
    CapacityExceeded,
>)
    ensures
        r is Ok <==> plan_total_bytes(partitions.deep_view()) <= device.size,
        r matches Ok(s) ==> s@ == spec_diskpart_script(0, partitions.deep_view()),
        r matches Err(e) ==> e.requested == clamp_to_u64(plan_total_bytes(partitions.deep_view()))
            && e.available == device.size,
{
    match validate_partition_config(device, partitions) {
        Ok(()) => Ok(create_diskpart_script(device, partitions)),
        Err(e) => Err(e),
    }
}

/// Validates a plan against the device's capacity and, when it fits,
/// compiles it into a ready-to-run diskutil execution. Nothing destructive
/// is prepared for a plan the capacity validator rejects.
pub fn prepare_macos_execution(device: &UsbDevice, partitions: &Vec<PartitionConfig>) -> (r:
    Result<PlanExecution, CapacityExceeded>)
    ensures
        r is Ok <==> plan_total_bytes(partitions.deep_view()) <= device.size,
        r matches Ok(e) ==> e.wf() && e.next == 0 && !e.failed && e.steps.deep_view()
            == spec_macos_steps(device.path@, partitions.deep_view()),
        r matches Err(e) ==> e.requested == clamp_to_u64(plan_total_bytes(partitions.deep_view()))
            && e.available == device.size,
{
    match validate_partition_config(device, partitions) {
        Ok(()) => Ok(PlanExecution::new(macos_command_steps(device, partitions))),
        Err(e) => Err(e),
    }
}

/// Validates a plan against the device's capacity and, when it fits,
/// compiles it into a ready-to-run parted execution. Nothing destructive is
/// prepared for a plan the capacity validator rejects.
pub fn prepare_linux_execution(device: &UsbDevice, partitions: &Vec<PartitionConfig>) -> (r:
    Result<PlanExecution, CapacityExceeded>)
    requires
        partitions@.len() <= 0xFFFF_FFFF,
    ensures
        r is Ok <==> plan_total_bytes(partitions.deep_view()) <= device.size,
        r matches Ok(e) ==> e.wf() && e.next == 0 && !e.failed && e.steps.deep_view()
            == spec_linux_steps(device.path@, partitions.deep_view()),
        r matches Err(e) ==> e.requested == clamp_to_u64(plan_total_bytes(partitions.deep_view()))
            && e.available == device.size,
{
    match validate_partition_config(device, partitions) {
        Ok(()) => Ok(PlanExecution::new(linux_command_steps(device, partitions))),
        Err(e) => Err(e),
    }
}

/// Every entry of a recommended plan asks for a positive size: the split
/// never emits a zero-size partition.
pub proof fn lemma_recommended_plan_positive(total_size_gb: u32)
    ensures
        forall|i: int|
            0 <= i < spec_recommended_plan(total_size_gb).len()
                ==> (#[trigger] spec_recommended_plan(total_size_gb)[i]).size_gb > 0,
{
}

/// The recommended split is a pure function of the total size: any two plans
/// derived for the same total are the same ordered sequence of entries.
pub proof fn lemma_recommended_plan_deterministic(
    total_size_gb: u32,
    a: Seq<PartitionView>,
    b: Seq<PartitionView>,
)
    requires
        a == spec_recommended_plan(total_size_gb),
        b == spec_recommended_plan(total_size_gb),
    ensures
        a == b,
{
}

} // verus!
