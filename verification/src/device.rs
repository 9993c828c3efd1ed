//! Persisted device configuration, its validation rules and runtime summaries.
use vstd::prelude::*;

use crate::constants::{DEFAULT_KERNEL_CMDLINE, DEFAULT_RAM_MB, DEFAULT_VCPU_COUNT, MAX_RAM_MB, MIN_RAM_MB};
use crate::error::{LiteDroidError, Result};
use crate::text::{decimal, u64_to_decimal};
use crate::types::{AndroidAbi, Architecture, AudioConfig, BootMode, DisplayConfig, NetworkConfig, PowerState, StorageConfig};

verus! {

#[verifier::external_type_specification]
#[verifier::external_body]
pub struct ExUuid(uuid::Uuid);

/// `Uuid` is `Copy`: its `clone` returns the same identifier.
pub assume_specification[ <uuid::Uuid as Clone>::clone ](u: &uuid::Uuid) -> (r: uuid::Uuid)
    ensures
        r == *u,
;

/// A fresh random (version 4) identifier.
///
/// Calls `uuid::Uuid::new_v4`; its value comes from a random source, so the
/// contract states nothing about it.
#[verifier::external_body]
fn new_device_id() -> uuid::Uuid {
    uuid::Uuid::new_v4()
}

/// Pre-canned device profiles that tune resources for different use-cases.
#[derive(Debug, Clone, Copy, PartialEq, Eq, Hash, Structural)]
pub enum DeviceProfile {
    /// Minimal resources — good for CI or headless testing.
    Minimal,
    /// Generous resources for interactive development.
    Developer,
    /// Balanced configuration aiming for broad app compatibility.
    Compatibility,
}

/// Complete, persisted configuration for a single virtual device.
#[derive(Debug, Clone)]
pub struct DeviceConfig {
    /// Human-readable name (e.g. "Pixel 7 API 34").
    pub name: String,
    /// Unique device identifier.
    pub id: uuid::Uuid,
    /// Emulated CPU architecture.
    pub architecture: Architecture,
    /// Number of virtual CPUs.
    pub vcpu_count: u32,
    /// Guest RAM size in megabytes.
    pub ram_mb: u64,
    /// Display configuration.
    pub display: DisplayConfig,
    /// Network configuration.
    pub network: NetworkConfig,
    /// Audio configuration.
    pub audio: AudioConfig,
    /// Storage configuration.
    pub storage: StorageConfig,
    /// Path to the guest Linux kernel image (bzImage / Image).
    pub kernel_path: String,
    /// Path to the initramfs / ramdisk.
    pub initramfs_path: String,
    /// Path to the Android system image.
    pub system_image_path: String,
    /// Optional path to a device-tree blob.
    pub dtb_path: Option<String>,
    /// Set of Android ABIs supported by this configuration.
    pub supported_abis: Vec<AndroidAbi>,
    /// Kernel command line (may override the default).
    pub kernel_cmdline: String,
    /// Target Android version string (e.g. "14").
    pub android_version: String,
    /// Android API level (e.g. 34).
    pub api_level: u32,
    /// Pre-canned profile this config was derived from.
    pub profile: DeviceProfile,
}

impl Default for DeviceConfig {
    /// The developer profile: one x86_64 ABI, default resources and an empty
    /// set of paths; the identifier is freshly drawn.
    fn default() -> (c: Self)
        ensures
            c.name@ == "LiteDroid"@,
            c.architecture == Architecture::X86_64,
            c.vcpu_count == DEFAULT_VCPU_COUNT,
            c.ram_mb == DEFAULT_RAM_MB,
            c.display == (DisplayConfig { width: 1080, height: 1920, dpi: 420, refresh_rate: 60 }),
            c.network.enabled,
            c.network.port_forwards@.len() == 0,
            c.network.guest_ip@ == "10.0.2.15"@,
            c.network.gateway_ip@ == "10.0.2.2"@,
            c.audio.enabled,
            c.audio.backend@ == "pulseaudio"@,
            c.audio.sample_rate == 48000,
            c.audio.channels == 2,
            c.storage.userdata_path@.len() == 0,
            c.storage.userdata_size_mb == 4096,
            c.storage.cache_path@.len() == 0,
            c.storage.cache_size_mb == 1024,
            c.kernel_path@.len() == 0,
            c.initramfs_path@.len() == 0,
            c.system_image_path@.len() == 0,
            c.dtb_path.is_none(),
            c.supported_abis@ == seq![AndroidAbi::X86_64],
            c.kernel_cmdline@ == DEFAULT_KERNEL_CMDLINE@,
            c.android_version@ == "14"@,
            c.api_level == 34,
            c.profile == DeviceProfile::Developer,
    {
        let mut abis = Vec::new();
        abis.push(AndroidAbi::X86_64);
        DeviceConfig {
            name: String::from_str("LiteDroid"),
            id: new_device_id(),
            architecture: Architecture::X86_64,
            vcpu_count: DEFAULT_VCPU_COUNT,
            ram_mb: DEFAULT_RAM_MB,
            display: DisplayConfig::default(),
            network: NetworkConfig::default(),
            audio: AudioConfig::default(),
            storage: StorageConfig::default(),
            kernel_path: String::new(),
            initramfs_path: String::new(),
            system_image_path: String::new(),
            dtb_path: None,
            supported_abis: abis,
            kernel_cmdline: String::from_str(DEFAULT_KERNEL_CMDLINE),
            android_version: String::from_str("14"),
            api_level: 34,
            profile: DeviceProfile::Developer,
        }
    }
}

/// The message of the first rule that `ram_mb`, `vcpu_count` and the number of
/// ABIs break, in the order the rules are checked, or `None` when all hold.
pub open spec fn config_violation(ram_mb: u64, vcpu_count: u32, abi_count: nat) -> Option<Seq<char>> {
    if ram_mb < MIN_RAM_MB {
        Some("RAM "@ + decimal(ram_mb as nat) + "MB is below the minimum of "@ + decimal(
            MIN_RAM_MB as nat,
        ) + "MB"@)
    } else if ram_mb > MAX_RAM_MB {
        Some("RAM "@ + decimal(ram_mb as nat) + "MB exceeds the maximum of "@ + decimal(
            MAX_RAM_MB as nat,
        ) + "MB"@)
    } else if vcpu_count == 0 {
        Some("vCPU count must be at least 1"@)
    } else if abi_count == 0 {
        Some("At least one ABI must be specified"@)
    } else {
        None
    }
}

impl DeviceConfig {
    /// Whether the configuration satisfies every validation rule.
    pub open spec fn is_valid(&self) -> bool {
        config_violation(self.ram_mb, self.vcpu_count, self.supported_abis@.len()) is None
    }

    /// Validate invariants. Returns `Ok(())` or the first error found.
    pub fn validate(&self) -> (r: Result<()>)
        ensures
            r is Ok <==> self.is_valid(),
            r matches Err(e) ==> (e matches LiteDroidError::ConfigError(m) && Some(m@)
                == config_violation(self.ram_mb, self.vcpu_count, self.supported_abis@.len())),
    {
        if self.ram_mb < MIN_RAM_MB {
            let m = String::from_str("RAM ").concat(u64_to_decimal(self.ram_mb).as_str()).concat(
                "MB is below the minimum of ",
            ).concat(u64_to_decimal(MIN_RAM_MB).as_str()).concat("MB");
            return Err(LiteDroidError::ConfigError(m));
        }
        if self.ram_mb > MAX_RAM_MB {
            let m = String::from_str("RAM ").concat(u64_to_decimal(self.ram_mb).as_str()).concat(
                "MB exceeds the maximum of ",
            ).concat(u64_to_decimal(MAX_RAM_MB).as_str()).concat("MB");
            return Err(LiteDroidError::ConfigError(m));
        }
        if self.vcpu_count == 0 {
            return Err(LiteDroidError::ConfigError(String::from_str("vCPU count must be at least 1")));
        }
        if self.supported_abis.len() == 0 {
            return Err(
                LiteDroidError::ConfigError(String::from_str("At least one ABI must be specified")),
            );
        }
        Ok(())
    }
}

/// The default resources (RAM, vCPUs) with at least one ABI pass
/// validation.
pub proof fn lemma_default_resources_valid(abi_count: nat)
    requires
        abi_count >= 1,
    ensures
        config_violation(DEFAULT_RAM_MB, DEFAULT_VCPU_COUNT, abi_count) is None,
{
}

/// Runtime state of a single virtual device.
#[derive(Debug, Clone)]
pub struct DeviceState {
    pub id: uuid::Uuid,
    pub name: String,
    pub power_state: PowerState,
    pub boot_mode: BootMode,
    /// PID of the VMM process, if running.
    pub pid: Option<u32>,
    /// Seconds since the VM was started.
    pub uptime_secs: u64,
    /// The configuration this state was created from.
    pub config: DeviceConfig,
}

/// A lightweight summary suitable for list / status commands.
#[derive(Debug, Clone)]
pub struct DeviceInfo {
    pub id: uuid::Uuid,
    pub name: String,
    pub power_state: PowerState,
    pub architecture: Architecture,
    pub vcpu_count: u32,
    pub ram_mb: u64,
    pub android_version: String,
    pub api_level: u32,
}

impl DeviceInfo {
    /// The summary of a device's runtime state: its identity and power state,
    /// with the resources and Android version taken from its configuration.
    pub fn from_state(state: &DeviceState) -> (info: DeviceInfo)
        ensures
            info.id == state.id,
            info.name@ == state.name@,
            info.power_state == state.power_state,
            info.architecture == state.config.architecture,
            info.vcpu_count == state.config.vcpu_count,
            info.ram_mb == state.config.ram_mb,
            info.android_version@ == state.config.android_version@,
            info.api_level == state.config.api_level,
    {
        DeviceInfo {
            id: state.id,
            name: state.name.clone(),
            power_state: state.power_state,
            architecture: state.config.architecture,
            vcpu_count: state.config.vcpu_count,
            ram_mb: state.config.ram_mb,
            android_version: state.config.android_version.clone(),
            api_level: state.config.api_level,
        }
    }
}

} // verus!
