//! Preparing a removable storage device for a vehicle's dashcam and media
//! subsystem: planning a partition layout, validating it against the device's
//! capacity and the vehicle's fixed requirements, compiling the ordered
//! command sequence for one of three platform partitioning backends, and
//! planning the directory tree each formatted partition must carry.
//!
//! Everything here is pure: the surrounding application performs device
//! discovery, runs the partitioning tools and creates the directories, and
//! feeds their outcomes back in.
use vstd::prelude::*;

pub mod partitions;
pub mod tesla;
pub mod text;

verus! {

/// A removable storage device as reported by device discovery. Identity is
/// the platform path; `size` is the capacity in bytes.
pub struct UsbDevice {
    pub name: String,
    pub path: String,
    pub size: u64,
    pub is_removable: bool,
}

/// One planned partition: label, requested size in GB, filesystem kind and a
/// free-form purpose tag that selects the folder layout installed after
/// formatting.
#[derive(Debug)]
pub struct PartitionConfig {
    pub name: String,
    pub size_gb: u32,
    pub filesystem: String,
    pub purpose: String,
}

/// The vehicle profile: four independent size requests in GB. It is compiled
/// into an ordered partition plan; a zero entry produces no partition.
#[derive(Clone, Copy, Debug, PartialEq, Eq, Structural)]
pub struct TeslaConfig {
    pub dashcam_size_gb: u32,
    pub sentry_size_gb: u32,
    pub music_size_gb: u32,
    pub lightshow_size_gb: u32,
}

/// The mathematical value of a [`UsbDevice`].
#[verifier::ext_equal]
pub ghost struct DeviceView {
    pub name: Seq<char>,
    pub path: Seq<char>,
    pub size: u64,
    pub is_removable: bool,
}

/// The mathematical value of a [`PartitionConfig`].
#[verifier::ext_equal]
pub ghost struct PartitionView {
    pub name: Seq<char>,
    pub size_gb: u32,
    pub filesystem: Seq<char>,
    pub purpose: Seq<char>,
}

impl DeepView for UsbDevice {
    type V = DeviceView;

    open spec fn deep_view(&self) -> DeviceView {
        DeviceView {
            name: self.name@,
            path: self.path@,
            size: self.size,
            is_removable: self.is_removable,
        }
    }
}

impl DeepView for PartitionConfig {
    type V = PartitionView;

    open spec fn deep_view(&self) -> PartitionView {
        PartitionView {
            name: self.name@,
            size_gb: self.size_gb,
            filesystem: self.filesystem@,
            purpose: self.purpose@,
        }
    }
}

/// A proposed plan asked for more bytes than the device reports.
/// `requested` is the plan's total in bytes, clamped to `u64::MAX` when the
/// true total does not fit; `available` is the device capacity in bytes.
#[derive(Clone, Copy, Debug, PartialEq, Eq, Structural)]
pub struct CapacityExceeded {
    pub requested: u64,
    pub available: u64,
}

/// A vehicle configuration broke one of the fixed requirements. Each variant
/// names the offending quantity and the limit it missed.
#[derive(Clone, Copy, Debug, PartialEq, Eq, Structural)]
pub enum RequirementViolation {
    DeviceTooSmall { device_gb: u64, min_gb: u32 },
    DashcamTooSmall { dashcam_gb: u32, min_gb: u32 },
    TotalExceedsCapacity { total_gb: u64, device_gb: u64 },
}

/// A partitioning backend reported failure. `partition` names the plan entry
/// whose step failed, where the step belongs to one; `stderr` is the tool's
/// diagnostic text.
#[derive(Debug)]
pub enum ExecutionError {
    BackendFailed { partition: Option<String>, stderr: String },
}

/// The text a capacity violation is reported as, with both quantities in
/// whole GB.
pub open spec fn spec_capacity_message(requested: u64, available: u64) -> Seq<char> {
    "Total partition size ("@ + text::spec_u64_decimal(
        (requested / partitions::BYTES_PER_GB) as nat,
    ) + " GB) exceeds device capacity ("@ + text::spec_u64_decimal(
        (available / partitions::BYTES_PER_GB) as nat,
    ) + " GB)"@
}

impl CapacityExceeded {
    /// Renders the violation as text, both quantities in whole GB.
    pub fn message(&self) -> (r: String)
        ensures
            r@ == spec_capacity_message(self.requested, self.available),
    {
        let mut message = String::new();
        message.append("Total partition size (");
        let requested_text = text::u64_to_string(self.requested / partitions::BYTES_PER_GB);
        message.append(requested_text.as_str());
        message.append(" GB) exceeds device capacity (");
        let available_text = text::u64_to_string(self.available / partitions::BYTES_PER_GB);
        message.append(available_text.as_str());
        message.append(" GB)");
        proof {
            assert(message@ =~= spec_capacity_message(self.requested, self.available));
        }
        message
    }
}

/// The text a requirement violation is reported as: the offending quantity
/// and the limit it missed, both in GB.
pub open spec fn spec_requirement_message(violation: RequirementViolation) -> Seq<char> {
    match violation {
        RequirementViolation::DeviceTooSmall { device_gb, min_gb } => "Device size ("@
            + text::spec_u64_decimal(device_gb as nat) + " GB) is below Tesla minimum requirement ("@
            + text::spec_u64_decimal(min_gb as nat) + " GB)"@,
        RequirementViolation::DashcamTooSmall { dashcam_gb, min_gb } => "Dashcam partition size ("@
            + text::spec_u64_decimal(dashcam_gb as nat)
            + " GB) is below Tesla minimum requirement ("@ + text::spec_u64_decimal(min_gb as nat)
            + " GB)"@,
        RequirementViolation::TotalExceedsCapacity { total_gb, device_gb } => "Total configured size ("@
            + text::spec_u64_decimal(total_gb as nat) + " GB) exceeds device capacity ("@
            + text::spec_u64_decimal(device_gb as nat) + " GB)"@,
    }
}

impl RequirementViolation {
    /// Renders the violation as text.
    pub fn message(&self) -> (r: String)
        ensures
            r@ == spec_requirement_message(*self),
    {
        let mut message = String::new();
        match self {
            RequirementViolation::DeviceTooSmall { device_gb, min_gb } => {
                message.append("Device size (");
                let device_text = text::u64_to_string(*device_gb);
                message.append(device_text.as_str());
                message.append(" GB) is below Tesla minimum requirement (");
                let min_text = text::u64_to_string(*min_gb as u64);
                message.append(min_text.as_str());
                message.append(" GB)");
            },
            RequirementViolation::DashcamTooSmall { dashcam_gb, min_gb } => {
                message.append("Dashcam partition size (");
                let dashcam_text = text::u64_to_string(*dashcam_gb as u64);
                message.append(dashcam_text.as_str());
                message.append(" GB) is below Tesla minimum requirement (");
                let min_text = text::u64_to_string(*min_gb as u64);
                message.append(min_text.as_str());
                message.append(" GB)");
            },
            RequirementViolation::TotalExceedsCapacity { total_gb, device_gb } => {
                message.append("Total configured size (");
                let total_text = text::u64_to_string(*total_gb);
                message.append(total_text.as_str());
                message.append(" GB) exceeds device capacity (");
                let device_text = text::u64_to_string(*device_gb);
                message.append(device_text.as_str());
                message.append(" GB)");
            },
        }
        proof {
            assert(message@ =~= spec_requirement_message(*self));
        }
        message
    }
}

/// The text a backend failure is reported as: the failing partition where
/// the step had one, and the tool's diagnostic text.
pub open spec fn spec_execution_message(error: &ExecutionError) -> Seq<char> {
    match error {
        ExecutionError::BackendFailed { partition, stderr } => match partition {
            Some(name) => "Backend failed on partition "@ + name@ + ": "@ + stderr@,
            None => "Backend failed: "@ + stderr@,
        },
    }
}

impl ExecutionError {
    /// Renders the failure as text.
    pub fn message(&self) -> (r: String)
        ensures
            r@ == spec_execution_message(self),
    {
        let mut message = String::new();
        match self {
            ExecutionError::BackendFailed { partition, stderr } => {
                match partition {
                    Some(name) => {
                        message.append("Backend failed on partition ");
                        message.append(name.as_str());
                        message.append(": ");
                        message.append(stderr.as_str());
                    },
                    None => {
                        message.append("Backend failed: ");
                        message.append(stderr.as_str());
                    },
                }
            },
        }
        proof {
            assert(message@ =~= spec_execution_message(self));
        }
        message
    }
}

} // verus!
