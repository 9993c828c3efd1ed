//! Plain data types describing an emulated device and its peripherals.
use vstd::prelude::*;

verus! {

/// CPU architecture of the emulated device.
#[derive(Debug, Clone, Copy, PartialEq, Eq, Hash, Structural)]
pub enum Architecture {
    X86_64,
    Aarch64,
}

impl Architecture {
    /// The lower-case name under which the architecture is shown and stored.
    pub fn label(&self) -> (s: &'static str)
        ensures
            s@ == (match *self {
                Architecture::X86_64 => "x86_64"@,
                Architecture::Aarch64 => "aarch64"@,
            }),
    {
        match self {
            Architecture::X86_64 => "x86_64",
            Architecture::Aarch64 => "aarch64",
        }
    }
}

/// Current power state of a virtual device.
#[derive(Debug, Clone, Copy, PartialEq, Eq, Hash, Structural)]
pub enum PowerState {
    Off,
    Starting,
    Running,
    Pausing,
    Paused,
    Resuming,
    Stopping,
    Error,
}

impl PowerState {
    /// The lower-case name under which the state is shown and stored.
    pub fn label(&self) -> (s: &'static str)
        ensures
            s@ == (match *self {
                PowerState::Off => "off"@,
                PowerState::Starting => "starting"@,
                PowerState::Running => "running"@,
                PowerState::Pausing => "pausing"@,
                PowerState::Paused => "paused"@,
                PowerState::Resuming => "resuming"@,
                PowerState::Stopping => "stopping"@,
                PowerState::Error => "error"@,
            }),
    {
        match self {
            PowerState::Off => "off",
            PowerState::Starting => "starting",
            PowerState::Running => "running",
            PowerState::Pausing => "pausing",
            PowerState::Paused => "paused",
            PowerState::Resuming => "resuming",
            PowerState::Stopping => "stopping",
            PowerState::Error => "error",
        }
    }
}

/// Boot mode: cold boot vs. fast resume from snapshot.
#[derive(Debug, Clone, Copy, PartialEq, Eq, Hash, Structural)]
pub enum BootMode {
    Cold,
    Fast,
}

/// Android ABI (application binary interface) identifiers.
#[derive(Debug, Clone, Copy, PartialEq, Eq, Hash, Structural)]
pub enum AndroidAbi {
    X86_64,
    Arm64V8a,
    ArmeabiV7a,
}

impl AndroidAbi {
    /// The name Android uses for the ABI.
    pub fn label(&self) -> (s: &'static str)
        ensures
            s@ == (match *self {
                AndroidAbi::X86_64 => "x86_64"@,
                AndroidAbi::Arm64V8a => "arm64-v8a"@,
                AndroidAbi::ArmeabiV7a => "armeabi-v7a"@,
            }),
    {
        match self {
            AndroidAbi::X86_64 => "x86_64",
            AndroidAbi::Arm64V8a => "arm64-v8a",
            AndroidAbi::ArmeabiV7a => "armeabi-v7a",
        }
    }
}

/// Guest display configuration.
#[derive(Debug, Clone, Copy, PartialEq, Eq, Structural)]
pub struct DisplayConfig {
    pub width: u32,
    pub height: u32,
    pub dpi: u32,
    pub refresh_rate: u32,
}

impl Default for DisplayConfig {
    fn default() -> (c: Self)
        ensures
            c == (DisplayConfig { width: 1080, height: 1920, dpi: 420, refresh_rate: 60 }),
    {
        DisplayConfig { width: 1080, height: 1920, dpi: 420, refresh_rate: 60 }
    }
}

/// Transport-layer protocol for port forwarding rules.
#[derive(Debug, Clone, Copy, PartialEq, Eq, Hash, Structural)]
pub enum PortProtocol {
    Tcp,
    Udp,
}

/// A single port-forwarding rule from host to guest.
#[derive(Debug, Clone, Copy, PartialEq, Eq, Structural)]
pub struct PortForward {
    pub host_port: u16,
    pub guest_port: u16,
    pub protocol: PortProtocol,
}

/// Guest network configuration.
#[derive(Debug, Clone)]
pub struct NetworkConfig {
    pub enabled: bool,
    pub port_forwards: Vec<PortForward>,
    pub guest_ip: String,
    pub gateway_ip: String,
}

impl Default for NetworkConfig {
    fn default() -> (c: Self)
        ensures
            c.enabled,
            c.port_forwards@.len() == 0,
            c.guest_ip@ == "10.0.2.15"@,
            c.gateway_ip@ == "10.0.2.2"@,
    {
        NetworkConfig {
            enabled: true,
            port_forwards: Vec::new(),
            guest_ip: String::from_str("10.0.2.15"),
            gateway_ip: String::from_str("10.0.2.2"),
        }
    }
}

/// Guest audio configuration.
#[derive(Debug, Clone)]
pub struct AudioConfig {
    pub enabled: bool,
    pub backend: String,
    pub sample_rate: u32,
    pub channels: u32,
}

impl Default for AudioConfig {
    fn default() -> (c: Self)
        ensures
            c.enabled,
            c.backend@ == "pulseaudio"@,
            c.sample_rate == 48000,
            c.channels == 2,
    {
        AudioConfig {
            enabled: true,
            backend: String::from_str("pulseaudio"),
            sample_rate: 48000,
            channels: 2,
        }
    }
}

/// Guest storage / disk-image configuration.
#[derive(Debug, Clone)]
pub struct StorageConfig {
    pub userdata_path: String,
    pub userdata_size_mb: u64,
    pub cache_path: String,
    pub cache_size_mb: u64,
}

impl Default for StorageConfig {
    fn default() -> (c: Self)
        ensures
            c.userdata_path@.len() == 0,
            c.userdata_size_mb == 4096,
            c.cache_path@.len() == 0,
            c.cache_size_mb == 1024,
    {
        StorageConfig {
            userdata_path: String::new(),
            userdata_size_mb: 4096,
            cache_path: String::new(),
            cache_size_mb: 1024,
        }
    }
}

/// Metadata about a saved VM snapshot.
#[derive(Debug, Clone)]
pub struct SnapshotInfo {
    pub name: String,
    pub created_at: String,
    pub size_bytes: u64,
    pub boot_mode: BootMode,
    pub description: String,
}

/// Parsed information extracted from an APK manifest.
#[derive(Debug, Clone)]
pub struct ApkInfo {
    pub package_name: String,
    pub version_name: String,
    pub version_code: u32,
    pub min_sdk: u32,
    pub target_sdk: u32,
    pub abis: Vec<AndroidAbi>,
    pub permissions: Vec<String>,
    pub size_bytes: u64,
}

/// A 2-D coordinate (guest pixels).
#[derive(Debug, Clone, Copy, PartialEq, Eq, Structural)]
pub struct Point {
    pub x: i32,
    pub y: i32,
}

/// Mouse button identifiers.
#[derive(Debug, Clone, Copy, PartialEq, Eq, Hash, Structural)]
pub enum MouseButton {
    Left,
    Right,
    Middle,
}

/// Special Android hardware buttons.
#[derive(Debug, Clone, Copy, PartialEq, Eq, Hash, Structural)]
pub enum AndroidButton {
    Back,
    Home,
    Recent,
    Power,
    VolumeUp,
    VolumeDown,
}

/// Input events forwarded from the host to the guest.
#[derive(Debug, Clone, Copy, PartialEq, Eq, Structural)]
pub enum InputEvent {
    MouseDown { button: MouseButton, x: i32, y: i32 },
    MouseUp { button: MouseButton, x: i32, y: i32 },
    MouseMove { x: i32, y: i32 },
    KeyDown { keycode: u32 },
    KeyUp { keycode: u32 },
    TouchStart { slot: u32, x: i32, y: i32 },
    TouchMove { slot: u32, x: i32, y: i32 },
    TouchEnd { slot: u32 },
    AndroidButton(AndroidButton),
}

} // verus!
