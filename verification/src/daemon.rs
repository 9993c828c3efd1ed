//! The daemon's decisions: which requests it serves and how, and how the
//! state of the Android emulator it supervises evolves.
//!
//! The daemon process itself (sockets, child processes, JSON) drives these
//! decisions and carries them out.
use vstd::prelude::*;
use vstd::string::StrSliceExecFns;

use crate::config::{join_path, path_join};
use crate::scan::{chars_of, trim, trimmed};
use crate::text::{decimal, str_eq, u64_to_decimal};

verus! {

/// How the daemon answers a request method.
#[derive(Debug, Clone, Copy, PartialEq, Eq, Structural)]
pub enum MethodKind {
    Ping,
    Status,
    Shutdown,
    DeviceStart,
    DeviceStop,
    DeviceStatus,
    VmStats,
    /// Answered with the error of `refusal_message`.
    Refused,
}

/// The kind of request `method` names.
pub open spec fn method_kind(method: Seq<char>) -> MethodKind {
    if method == "daemon.ping"@ {
        MethodKind::Ping
    } else if method == "daemon.status"@ {
        MethodKind::Status
    } else if method == "daemon.shutdown"@ {
        MethodKind::Shutdown
    } else if method == "device.start"@ {
        MethodKind::DeviceStart
    } else if method == "device.stop"@ {
        MethodKind::DeviceStop
    } else if method == "device.status"@ {
        MethodKind::DeviceStatus
    } else if method == "vm.stats"@ {
        MethodKind::VmStats
    } else {
        MethodKind::Refused
    }
}

/// The error that answers a refused `method`.
pub open spec fn refusal_message(method: Seq<char>) -> Seq<char> {
    if method == "device.restart"@ {
        "VM not running"@
    } else if method == "device.pause"@ {
        "Pause is not implemented for the active VM"@
    } else if method == "device.resume"@ {
        "Resume is not implemented for the active VM"@
    } else if method == "device.launch"@ || method == "device.screenshot"@ {
        "Device not running"@
    } else if method == "apk.install"@ || method == "apk.uninstall"@ || method == "apk.list"@ {
        "ADB bridge not yet connected"@
    } else if method == "adb.shell"@ || method == "adb.install"@ || method == "adb.logcat"@ {
        "ADB not yet connected"@
    } else if method == "snapshot.create"@ || method == "snapshot.restore"@ || method == "snapshot.list"@
        || method == "snapshot.delete"@ {
        "No active VM"@
    } else {
        "Unknown method: "@ + method
    }
}

/// The kind of request `method` names (see `method_kind`).
pub fn classify_method(method: &str) -> (k: MethodKind)
    ensures
        k == method_kind(method@),
{
    if str_eq(method, "daemon.ping") {
        MethodKind::Ping
    } else if str_eq(method, "daemon.status") {
        MethodKind::Status
    } else if str_eq(method, "daemon.shutdown") {
        MethodKind::Shutdown
    } else if str_eq(method, "device.start") {
        MethodKind::DeviceStart
    } else if str_eq(method, "device.stop") {
        MethodKind::DeviceStop
    } else if str_eq(method, "device.status") {
        MethodKind::DeviceStatus
    } else if str_eq(method, "vm.stats") {
        MethodKind::VmStats
    } else {
        MethodKind::Refused
    }
}

/// The error that answers a refused `method` (see `refusal_message`).
pub fn refusal(method: &str) -> (m: String)
    ensures
        m@ == refusal_message(method@),
{
    if str_eq(method, "device.restart") {
        String::from_str("VM not running")
    } else if str_eq(method, "device.pause") {
        String::from_str("Pause is not implemented for the active VM")
    } else if str_eq(method, "device.resume") {
        String::from_str("Resume is not implemented for the active VM")
    } else if str_eq(method, "device.launch") || str_eq(method, "device.screenshot") {
        String::from_str("Device not running")
    } else if str_eq(method, "apk.install") || str_eq(method, "apk.uninstall") || str_eq(method, "apk.list") {
        String::from_str("ADB bridge not yet connected")
    } else if str_eq(method, "adb.shell") || str_eq(method, "adb.install") || str_eq(method, "adb.logcat") {
        String::from_str("ADB not yet connected")
    } else if str_eq(method, "snapshot.create") || str_eq(method, "snapshot.restore") || str_eq(method, "snapshot.list")
        || str_eq(method, "snapshot.delete") {
        String::from_str("No active VM")
    } else {
        String::from_str("Unknown method: ").concat(method)
    }
}

/// The device a `device.start` request names: its `device` parameter, or
/// `default`.
pub fn requested_device(param: Option<&str>) -> (d: String)
    ensures
        d@ == (match param {
            Some(p) => p@,
            None => "default"@,
        }),
{
    match param {
        Some(p) => String::from_str(p),
        None => String::from_str("default"),
    }
}

/// The emulator AVD used for Android API level `api_level`.
pub fn avd_name(api_level: u32) -> (n: String)
    ensures
        n@ == "LiteDroid-API"@ + decimal(api_level as nat),
{
    String::from_str("LiteDroid-API").concat(u64_to_decimal(api_level as u64).as_str())
}

/// A step of `device.start` that can fail.
#[derive(Debug, Clone, PartialEq, Eq)]
pub enum StartStep {
    LoadConfiguration,
    CreateDefaultDevice,
    LoadDevice(String),
    Images,
    CreateLog,
    PrepareLog,
    SpawnEmulator,
}

/// The text that opens the error of a failed `step`.
pub open spec fn start_step_prefix(step: StartStep) -> Seq<char> {
    match step {
        StartStep::LoadConfiguration => "Cannot load configuration: "@,
        StartStep::CreateDefaultDevice => "Cannot create default device: "@,
        StartStep::LoadDevice(name) => "Cannot load device "@ + name@ + ": "@,
        StartStep::Images => "Android images are unavailable: "@,
        StartStep::CreateLog => "Cannot create emulator log: "@,
        StartStep::PrepareLog => "Cannot prepare emulator log: "@,
        StartStep::SpawnEmulator => "Cannot start Android emulator: "@,
    }
}

/// The error that answers `device.start` when `step` failed with `detail`.
pub fn start_failure(step: &StartStep, detail: &str) -> (m: String)
    ensures
        m@ == start_step_prefix(*step) + detail@,
{
    let prefix = match step {
        StartStep::LoadConfiguration => String::from_str("Cannot load configuration: "),
        StartStep::CreateDefaultDevice => String::from_str("Cannot create default device: "),
        StartStep::LoadDevice(name) => String::from_str("Cannot load device ").concat(name.as_str()).concat(": "),
        StartStep::Images => String::from_str("Android images are unavailable: "),
        StartStep::CreateLog => String::from_str("Cannot create emulator log: "),
        StartStep::PrepareLog => String::from_str("Cannot prepare emulator log: "),
        StartStep::SpawnEmulator => String::from_str("Cannot start Android emulator: "),
    };
    prefix.concat(detail)
}

/// The error that refuses `device.start` while an emulator is still
/// running.
pub fn already_running() -> (m: String)
    ensures
        m@ == "Android emulator is already running"@,
{
    String::from_str("Android emulator is already running")
}

/// What the daemon last learnt of the emulator it started.
#[derive(Debug, Clone, PartialEq, Eq)]
pub enum EmulatorObservation {
    /// No emulator was started.
    Absent,
    /// The emulator is running; what `adb get-state` printed, if it ran.
    Running { adb_output: Option<String> },
    /// The emulator exited, successfully or not.
    Exited { success: bool },
    /// Its state could not be queried.
    Unknown,
}

/// The daemon's view of the device it runs.
#[derive(Debug, Clone)]
pub struct DaemonState {
    pub active_device: Option<String>,
    pub power_state: String,
}

/// The power state for observation `obs`, from `previous`.
pub open spec fn observed_power(previous: Seq<char>, obs: EmulatorObservation) -> Seq<char> {
    match obs {
        EmulatorObservation::Absent => previous,
        EmulatorObservation::Running { adb_output } => if adb_output matches Some(out) && trim(out@) == "device"@ {
            "running"@
        } else {
            "booting"@
        },
        EmulatorObservation::Exited { success } => if success {
            "off"@
        } else {
            "error"@
        },
        EmulatorObservation::Unknown => "error"@,
    }
}

/// Whether `p` is one of the power states the daemon reports.
pub open spec fn known_power_state(p: Seq<char>) -> bool {
    p == "off"@ || p == "booting"@ || p == "running"@ || p == "stopping"@ || p == "error"@
}

/// The daemon only ever reports one of its five power states: every
/// operation on `DaemonState` sets one of them (see their contracts), and
/// observing the emulator from a known state gives a known state.
pub proof fn lemma_observed_power_known(previous: Seq<char>, obs: EmulatorObservation)
    requires
        known_power_state(previous),
    ensures
        known_power_state(observed_power(previous, obs)),
{
}

impl DaemonState {
    /// No device, powered off.
    pub fn new() -> (s: Self)
        ensures
            s.active_device is None,
            s.power_state@ == "off"@,
    {
        DaemonState { active_device: None, power_state: String::from_str("off") }
    }

    /// The daemon is shutting down: no device, `stopping`.
    pub fn shutting_down(&mut self)
        ensures
            final(self).active_device is None,
            final(self).power_state@ == "stopping"@,
    {
        self.active_device = None;
        self.power_state = String::from_str("stopping");
    }

    /// The device was stopped: no device, `off`.
    pub fn stopped(&mut self)
        ensures
            final(self).active_device is None,
            final(self).power_state@ == "off"@,
    {
        self.active_device = None;
        self.power_state = String::from_str("off");
    }

    /// The emulator for `device` was started: it is the active device,
    /// `booting`.
    pub fn started(&mut self, device: String)
        ensures
            final(self).active_device == Some(device),
            final(self).power_state@ == "booting"@,
    {
        self.active_device = Some(device);
        self.power_state = String::from_str("booting");
    }

    /// Update the state from observation `obs` of the emulator and return
    /// the power state: a running emulator is `running` once ADB reports
    /// it as a `device` and `booting` before; one that exited leaves no
    /// active device and is `off` (or `error` when it failed); a state
    /// that cannot be queried is `error`.
    pub fn observe(&mut self, obs: &EmulatorObservation) -> (p: String)
        ensures
            final(self).power_state@ == observed_power(old(self).power_state@, *obs),
            p@ == final(self).power_state@,
            obs is Exited ==> final(self).active_device is None,
            !(obs is Exited) ==> final(self).active_device == old(self).active_device,
    {
        match obs {
            EmulatorObservation::Absent => {},
            EmulatorObservation::Running { adb_output } => {
                let ready = match adb_output {
                    Some(out) => {
                        let t = trimmed(&chars_of(out.as_str()));
                        let device = chars_of("device");
                        t.len() == device.len() && crate::daemon::same_chars(&t, &device)
                    },
                    None => false,
                };
                self.power_state = if ready {
                    String::from_str("running")
                } else {
                    String::from_str("booting")
                };
            },
            EmulatorObservation::Exited { success } => {
                self.active_device = None;
                self.power_state = if *success {
                    String::from_str("off")
                } else {
                    String::from_str("error")
                };
            },
            EmulatorObservation::Unknown => {
                self.power_state = String::from_str("error");
            },
        }
        self.power_state.clone()
    }
}

fn same_chars(a: &Vec<char>, b: &Vec<char>) -> (r: bool)
    requires
        a@.len() == b@.len(),
    ensures
        r == (a@ == b@),
{
    let mut i: usize = 0;
    while i < a.len()
        invariant
            a@.len() == b@.len(),
            i <= a@.len(),
            forall|k: int| 0 <= k < i ==> a@[k] == b@[k],
        decreases a@.len() - i,
    {
        if a[i] != b[i] {
            return false;
        }
        i = i + 1;
    }
    assert(a@ =~= b@);
    true
}

/// The Android SDK the daemon uses: `ANDROID_SDK_ROOT`, else
/// `ANDROID_HOME`, else `android-sdk` under the data directory.
pub open spec fn sdk_root_spec(env_sdk_root: Option<Seq<char>>, android_home: Option<Seq<char>>, data_dir: Seq<char>) -> Seq<
    char,
> {
    match env_sdk_root {
        Some(r) => r,
        None => match android_home {
            Some(h) => h,
            None => path_join(data_dir, "android-sdk"@),
        },
    }
}

/// The Android SDK root (see `sdk_root_spec`).
pub fn sdk_root(env_sdk_root: Option<String>, android_home: Option<String>, data_dir: &str) -> (r: String)
    ensures
        r@ == sdk_root_spec(
            match env_sdk_root {
                Some(s) => Some(s@),
                None => None,
            },
            match android_home {
                Some(s) => Some(s@),
                None => None,
            },
            data_dir@,
        ),
{
    match env_sdk_root {
        Some(r) => r,
        None => match android_home {
            Some(h) => h,
            None => join_path(data_dir, "android-sdk"),
        },
    }
}

/// The emulator, adb and avdmanager binaries of an SDK.
pub struct AndroidToolPaths {
    pub emulator: String,
    pub adb: String,
    pub avdmanager: String,
}

/// Where the tools of the SDK at `root` are: `emulator/emulator`,
/// `platform-tools/adb` and `cmdline-tools/latest/bin/avdmanager`.
pub fn android_tool_paths(root: &str) -> (t: AndroidToolPaths)
    ensures
        t.emulator@ == path_join(path_join(root@, "emulator"@), "emulator"@),
        t.adb@ == path_join(path_join(root@, "platform-tools"@), "adb"@),
        t.avdmanager@ == path_join(
            path_join(path_join(path_join(root@, "cmdline-tools"@), "latest"@), "bin"@),
            "avdmanager"@,
        ),
{
    let emulator = join_path(join_path(root, "emulator").as_str(), "emulator");
    let adb = join_path(join_path(root, "platform-tools").as_str(), "adb");
    let tools = join_path(join_path(join_path(root, "cmdline-tools").as_str(), "latest").as_str(), "bin");
    let avdmanager = join_path(tools.as_str(), "avdmanager");
    AndroidToolPaths { emulator, adb, avdmanager }
}

/// The error when the SDK at `root` lacks the emulator tools.
pub fn missing_tools_message(root: &str) -> (m: String)
    ensures
        m@ == "Android Emulator tools are not installed under "@ + root@
            + ". Run scripts/linux/setup.sh first."@,
{
    String::from_str("Android Emulator tools are not installed under ").concat(root).concat(
        ". Run scripts/linux/setup.sh first.",
    )
}

} // verus!
