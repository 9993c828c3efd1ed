//! The error type shared by every part of the library.
use vstd::prelude::*;
use vstd::string::*;

use crate::text::{decimal, hex, u64_to_decimal, u64_to_hex};

verus! {

/// Master error type for the LiteDroid emulator.
///
/// Paths are carried as strings; an operating-system error is carried as its
/// message.
#[derive(Debug, Clone, PartialEq, Eq)]
pub enum LiteDroidError {
    KvmUnavailable(String),
    KvmIoctl(String),
    VmCreationFailed(String),
    VcpuCreationFailed { cpu_index: u32, reason: String },
    VcpuRunFailed { cpu_index: u32, reason: String },
    MemoryAllocationFailed { requested_mb: u64, available_mb: u64 },
    MemoryMapFailed(String),
    GuestAddressOutOfRange { address: u64 },
    DiskImageNotFound(String),
    DiskIo(String),
    KernelNotFound(String),
    InitramfsNotFound(String),
    KernelLoadFailed(String),
    SystemImageNotFound(String),
    AdbConnectionFailed(String),
    AdbProtocolError(String),
    AdbCommandFailed(String),
    DisplayInitFailed(String),
    AudioInitFailed(String),
    NetworkInterfaceFailed(String),
    NatSetupFailed(String),
    InputError(String),
    IpcConnectionFailed(String),
    IpcProtocolError(String),
    DaemonNotRunning(String),
    DaemonStartFailed(String),
    ConfigError(String),
    DeviceNotFound(String),
    DeviceAlreadyExists(String),
    ApkNotFound(String),
    ApkInstallFailed(String),
    ApkLaunchFailed { package: String, reason: String },
    AbiMismatch { required: String, provided: String },
    SnapshotError(String),
    PermissionDenied(String),
    OsError(String),
    NotImplemented(String),
    Unavailable(String),
}

/// The message that describes `e` to a user.
pub open spec fn error_text(e: LiteDroidError) -> Seq<char> {
    match e {
        LiteDroidError::KvmUnavailable(m) => "KVM unavailable: "@ + m@,
        LiteDroidError::KvmIoctl(m) => "KVM ioctl error: "@ + m@,
        LiteDroidError::VmCreationFailed(m) => "VM creation failed: "@ + m@,
        LiteDroidError::VcpuCreationFailed { cpu_index, reason } => "vCPU creation failed (cpu_index="@ + decimal(
            cpu_index as nat,
        ) + "): "@ + reason@,
        LiteDroidError::VcpuRunFailed { cpu_index, reason } => "vCPU run failed (cpu_index="@ + decimal(
            cpu_index as nat,
        ) + "): "@ + reason@,
        LiteDroidError::MemoryAllocationFailed { requested_mb, available_mb } => "Memory allocation failed: requested "@
            + decimal(requested_mb as nat) + "MB, available "@ + decimal(available_mb as nat) + "MB"@,
        LiteDroidError::MemoryMapFailed(m) => "Memory map failed: "@ + m@,
        LiteDroidError::GuestAddressOutOfRange { address } => "Guest address out of range: "@ + seq!['0', 'x'] + hex(
            address as nat,
        ),
        LiteDroidError::DiskImageNotFound(m) => "Disk image not found: "@ + m@,
        LiteDroidError::DiskIo(m) => "Disk I/O error: "@ + m@,
        LiteDroidError::KernelNotFound(m) => "Kernel not found: "@ + m@,
        LiteDroidError::InitramfsNotFound(m) => "Initramfs not found: "@ + m@,
        LiteDroidError::KernelLoadFailed(m) => "Kernel load failed: "@ + m@,
        LiteDroidError::SystemImageNotFound(m) => "System image not found: "@ + m@,
        LiteDroidError::AdbConnectionFailed(m) => "ADB connection failed: "@ + m@,
        LiteDroidError::AdbProtocolError(m) => "ADB protocol error: "@ + m@,
        LiteDroidError::AdbCommandFailed(m) => "ADB command failed: "@ + m@,
        LiteDroidError::DisplayInitFailed(m) => "Display initialization failed: "@ + m@,
        LiteDroidError::AudioInitFailed(m) => "Audio initialization failed: "@ + m@,
        LiteDroidError::NetworkInterfaceFailed(m) => "Network interface failed: "@ + m@,
        LiteDroidError::NatSetupFailed(m) => "NAT setup failed: "@ + m@,
        LiteDroidError::InputError(m) => "Input error: "@ + m@,
        LiteDroidError::IpcConnectionFailed(m) => "IPC connection failed: "@ + m@,
        LiteDroidError::IpcProtocolError(m) => "IPC protocol error: "@ + m@,
        LiteDroidError::DaemonNotRunning(m) => "Daemon not running: "@ + m@,
        LiteDroidError::DaemonStartFailed(m) => "Daemon start failed: "@ + m@,
        LiteDroidError::ConfigError(m) => "Configuration error: "@ + m@,
        LiteDroidError::DeviceNotFound(m) => "Device not found: "@ + m@,
        LiteDroidError::DeviceAlreadyExists(m) => "Device already exists: "@ + m@,
        LiteDroidError::ApkNotFound(m) => "APK not found: "@ + m@,
        LiteDroidError::ApkInstallFailed(m) => "APK install failed: "@ + m@,
        LiteDroidError::ApkLaunchFailed { package, reason } => "APK launch failed (package="@ + package@ + "): "@
            + reason@,
        LiteDroidError::AbiMismatch { required, provided } => "ABI mismatch: required="@ + required@ + ", provided="@
            + provided@,
        LiteDroidError::SnapshotError(m) => "Snapshot error: "@ + m@,
        LiteDroidError::PermissionDenied(m) => "Permission denied: "@ + m@,
        LiteDroidError::OsError(m) => "OS error: "@ + m@,
        LiteDroidError::NotImplemented(m) => "Not implemented: "@ + m@,
        LiteDroidError::Unavailable(m) => "Unavailable: "@ + m@,
    }
}

impl LiteDroidError {
    /// The message that describes the error (see `error_text`).
    pub fn to_string(&self) -> (s: String)
        ensures
            s@ == error_text(*self),
    {
        match self {
            LiteDroidError::KvmUnavailable(m) => String::from_str("KVM unavailable: ").concat(m.as_str()),
            LiteDroidError::KvmIoctl(m) => String::from_str("KVM ioctl error: ").concat(m.as_str()),
            LiteDroidError::VmCreationFailed(m) => String::from_str("VM creation failed: ").concat(m.as_str()),
            LiteDroidError::VcpuCreationFailed { cpu_index, reason } => String::from_str("vCPU creation failed (cpu_index=").concat(
                u64_to_decimal(*cpu_index as u64).as_str(),
            ).concat("): ").concat(reason.as_str()),
            LiteDroidError::VcpuRunFailed { cpu_index, reason } => String::from_str("vCPU run failed (cpu_index=").concat(
                u64_to_decimal(*cpu_index as u64).as_str(),
            ).concat("): ").concat(reason.as_str()),
            LiteDroidError::MemoryAllocationFailed { requested_mb, available_mb } => String::from_str(
                "Memory allocation failed: requested ",
            ).concat(u64_to_decimal(*requested_mb).as_str()).concat("MB, available ").concat(
                u64_to_decimal(*available_mb).as_str(),
            ).concat("MB"),
            LiteDroidError::MemoryMapFailed(m) => String::from_str("Memory map failed: ").concat(m.as_str()),
            LiteDroidError::GuestAddressOutOfRange { address } => String::from_str("Guest address out of range: ").concat(
                u64_to_hex(*address).as_str(),
            ),
            LiteDroidError::DiskImageNotFound(m) => String::from_str("Disk image not found: ").concat(m.as_str()),
            LiteDroidError::DiskIo(m) => String::from_str("Disk I/O error: ").concat(m.as_str()),
            LiteDroidError::KernelNotFound(m) => String::from_str("Kernel not found: ").concat(m.as_str()),
            LiteDroidError::InitramfsNotFound(m) => String::from_str("Initramfs not found: ").concat(m.as_str()),
            LiteDroidError::KernelLoadFailed(m) => String::from_str("Kernel load failed: ").concat(m.as_str()),
            LiteDroidError::SystemImageNotFound(m) => String::from_str("System image not found: ").concat(m.as_str()),
            LiteDroidError::AdbConnectionFailed(m) => String::from_str("ADB connection failed: ").concat(m.as_str()),
            LiteDroidError::AdbProtocolError(m) => String::from_str("ADB protocol error: ").concat(m.as_str()),
            LiteDroidError::AdbCommandFailed(m) => String::from_str("ADB command failed: ").concat(m.as_str()),
            LiteDroidError::DisplayInitFailed(m) => String::from_str("Display initialization failed: ").concat(m.as_str()),
            LiteDroidError::AudioInitFailed(m) => String::from_str("Audio initialization failed: ").concat(m.as_str()),
            LiteDroidError::NetworkInterfaceFailed(m) => String::from_str("Network interface failed: ").concat(m.as_str()),
            LiteDroidError::NatSetupFailed(m) => String::from_str("NAT setup failed: ").concat(m.as_str()),
            LiteDroidError::InputError(m) => String::from_str("Input error: ").concat(m.as_str()),
            LiteDroidError::IpcConnectionFailed(m) => String::from_str("IPC connection failed: ").concat(m.as_str()),
            LiteDroidError::IpcProtocolError(m) => String::from_str("IPC protocol error: ").concat(m.as_str()),
            LiteDroidError::DaemonNotRunning(m) => String::from_str("Daemon not running: ").concat(m.as_str()),
            LiteDroidError::DaemonStartFailed(m) => String::from_str("Daemon start failed: ").concat(m.as_str()),
            LiteDroidError::ConfigError(m) => String::from_str("Configuration error: ").concat(m.as_str()),
            LiteDroidError::DeviceNotFound(m) => String::from_str("Device not found: ").concat(m.as_str()),
            LiteDroidError::DeviceAlreadyExists(m) => String::from_str("Device already exists: ").concat(m.as_str()),
            LiteDroidError::ApkNotFound(m) => String::from_str("APK not found: ").concat(m.as_str()),
            LiteDroidError::ApkInstallFailed(m) => String::from_str("APK install failed: ").concat(m.as_str()),
            LiteDroidError::ApkLaunchFailed { package, reason } => String::from_str("APK launch failed (package=").concat(
                package.as_str(),
            ).concat("): ").concat(reason.as_str()),
            LiteDroidError::AbiMismatch { required, provided } => String::from_str("ABI mismatch: required=").concat(
                required.as_str(),
            ).concat(", provided=").concat(provided.as_str()),
            LiteDroidError::SnapshotError(m) => String::from_str("Snapshot error: ").concat(m.as_str()),
            LiteDroidError::PermissionDenied(m) => String::from_str("Permission denied: ").concat(m.as_str()),
            LiteDroidError::OsError(m) => String::from_str("OS error: ").concat(m.as_str()),
            LiteDroidError::NotImplemented(m) => String::from_str("Not implemented: ").concat(m.as_str()),
            LiteDroidError::Unavailable(m) => String::from_str("Unavailable: ").concat(m.as_str()),
        }
    }
}

/// Convenience result type alias for the whole crate.
pub type Result<T> = core::result::Result<T, LiteDroidError>;

} // verus!
