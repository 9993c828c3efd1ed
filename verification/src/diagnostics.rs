//! Host diagnostics: each check turns what a probe of the host found into a
//! verdict with a message.
//!
//! The probes themselves (reading `/proc`, opening `/dev/kvm`, `statvfs`,
//! running `which adb`) are made by the caller, which hands their outcomes
//! over in a [`HostProbe`].
use vstd::prelude::*;
use vstd::string::StrSliceExecFns;

use crate::config::home_dir;
use crate::constants::DEFAULT_DATA_DIR;
use crate::scan::{
    after_prefixed_line, chars_of, contains, contains_seq, find_prefixed_line, first_token, parse_u64,
    parse_u64_spec, token_at, trim, trimmed,
};
use crate::text::{decimal, i32_to_decimal, signed_decimal, u64_to_decimal};

verus! {

#[derive(Debug, Clone, Copy, PartialEq, Eq, Structural)]
pub enum DiagnosticStatus {
    Pass,
    Warn,
    Error,
}

/// The symbol that shows a status: a check mark, a warning sign or a cross.
pub open spec fn status_symbol(s: DiagnosticStatus) -> Seq<char> {
    match s {
        DiagnosticStatus::Pass => "\u{2713}"@,
        DiagnosticStatus::Warn => "\u{26a0}"@,
        DiagnosticStatus::Error => "\u{2717}"@,
    }
}

impl DiagnosticStatus {
    /// The status as shown to the user (see `status_symbol`).
    pub fn to_string(&self) -> (s: String)
        ensures
            s@ == status_symbol(*self),
    {
        match self {
            DiagnosticStatus::Pass => String::from_str("\u{2713}"),
            DiagnosticStatus::Warn => String::from_str("\u{26a0}"),
            DiagnosticStatus::Error => String::from_str("\u{2717}"),
        }
    }
}

#[derive(Debug, Clone)]
pub struct DiagnosticResult {
    pub name: String,
    pub status: DiagnosticStatus,
    pub message: String,
    pub details: Option<String>,
}

/// The line that reports `r`: its status symbol, name and message, then
/// its details in parentheses when there are any.
pub open spec fn result_line(r: DiagnosticResult) -> Seq<char> {
    let head = status_symbol(r.status) + " "@ + r.name@ + ": "@ + r.message@;
    match r.details {
        Some(d) => head + " ("@ + d@ + ")"@,
        None => head,
    }
}

impl DiagnosticResult {
    /// The result as one line of a report (see `result_line`).
    pub fn to_string(&self) -> (s: String)
        ensures
            s@ == result_line(*self),
    {
        let head = self.status.to_string().concat(" ").concat(self.name.as_str()).concat(": ").concat(
            self.message.as_str(),
        );
        match &self.details {
            Some(d) => head.concat(" (").concat(d.as_str()).concat(")"),
            None => head,
        }
    }
}

/// Whether `r` has the given name, status, message and details.
pub open spec fn reports(
    r: DiagnosticResult,
    name: Seq<char>,
    status: DiagnosticStatus,
    message: Seq<char>,
    details: Option<Seq<char>>,
) -> bool {
    &&& r.name@ == name
    &&& r.status == status
    &&& r.message@ == message
    &&& match details {
        Some(d) => r.details matches Some(x) && x@ == d,
        None => r.details is None,
    }
}

fn result(name: &str, status: DiagnosticStatus, message: String, details: Option<String>) -> (r: DiagnosticResult)
    ensures
        r.name@ == name@,
        r.status == status,
        r.message == message,
        r.details == details,
{
    DiagnosticResult { name: String::from_str(name), status, message, details }
}

/// The characters of `v` as a string.
fn string_of(v: &Vec<char>) -> (s: String)
    ensures
        s@ == v@,
{
    let mut s = String::new();
    let mut i: usize = 0;
    while i < v.len()
        invariant
            i <= v@.len(),
            s@ == v@.subrange(0, i as int),
        decreases v@.len() - i,
    {
        s.push(v[i]);
        i = i + 1;
        assert(s@ =~= v@.subrange(0, i as int));
    }
    assert(v@.subrange(0, v@.len() as int) =~= v@);
    s
}

/// The view of an optional string.
pub open spec fn opt_view(o: Option<String>) -> Option<Seq<char>> {
    match o {
        Some(s) => Some(s@),
        None => None,
    }
}

/// What reading a report file gave: its contents, or the error's message.
pub type ReadOutcome = core::result::Result<String, String>;

/// The kernel-version verdict for the contents of `/proc/version`: the
/// first word of the trimmed contents ("unknown" when there is none), with
/// the trimmed contents as details.
pub open spec fn kernel_version_report(p: ReadOutcome, r: DiagnosticResult) -> bool {
    match p {
        Ok(content) => reports(
            r,
            "Kernel Version"@,
            DiagnosticStatus::Pass,
            match first_token(trim(content@)) {
                Some(t) => t,
                None => "unknown"@,
            },
            Some(trim(content@)),
        ),
        Err(e) => reports(r, "Kernel Version"@, DiagnosticStatus::Error, "failed to read /proc/version"@, Some(e@)),
    }
}

/// Check the running kernel (see `kernel_version_report`).
pub fn check_kernel_version(p: &ReadOutcome) -> (r: DiagnosticResult)
    ensures
        kernel_version_report(*p, r),
{
    match p {
        Ok(content) => {
            let chars = chars_of(content.as_str());
            let version = trimmed(&chars);
            assert(version@.subrange(0, version@.len() as int) =~= version@);
            let parsed = match token_at(&version, 0) {
                Some(t) => string_of(&t),
                None => String::from_str("unknown"),
            };
            result("Kernel Version", DiagnosticStatus::Pass, parsed, Some(string_of(&version)))
        },
        Err(e) => result(
            "Kernel Version",
            DiagnosticStatus::Error,
            String::from_str("failed to read /proc/version"),
            Some(e.clone()),
        ),
    }
}

/// The architecture verdict for the machine name that `uname` gave, if it
/// succeeded.
pub open spec fn cpu_arch_report(machine: Option<String>, r: DiagnosticResult) -> bool {
    match machine {
        Some(m) => reports(r, "CPU Architecture"@, DiagnosticStatus::Pass, m@, Some("uname -m: "@ + m@)),
        None => reports(r, "CPU Architecture"@, DiagnosticStatus::Error, "uname failed"@, None),
    }
}

/// Check the CPU architecture (see `cpu_arch_report`).
pub fn check_cpu_arch(machine: &Option<String>) -> (r: DiagnosticResult)
    ensures
        cpu_arch_report(*machine, r),
{
    match machine {
        Some(m) => result(
            "CPU Architecture",
            DiagnosticStatus::Pass,
            m.clone(),
            Some(String::from_str("uname -m: ").concat(m.as_str())),
        ),
        None => result("CPU Architecture", DiagnosticStatus::Error, String::from_str("uname failed"), None),
    }
}

/// The virtualization verdict for the contents of `/proc/cpuinfo`: Intel
/// VT-x when "vmx" occurs in it, else AMD-V when "svm" does.
pub open spec fn cpu_virtualization_report(p: ReadOutcome, r: DiagnosticResult) -> bool {
    match p {
        Ok(content) => if contains_seq(content@, "vmx"@) {
            reports(r, "CPU Virtualization"@, DiagnosticStatus::Pass, "Intel VT-x (vmx) supported"@, None)
        } else if contains_seq(content@, "svm"@) {
            reports(r, "CPU Virtualization"@, DiagnosticStatus::Pass, "AMD-V (svm) supported"@, None)
        } else {
            reports(
                r,
                "CPU Virtualization"@,
                DiagnosticStatus::Error,
                "no CPU virtualization support detected"@,
                None,
            )
        },
        Err(e) => reports(
            r,
            "CPU Virtualization"@,
            DiagnosticStatus::Error,
            "failed to read /proc/cpuinfo"@,
            Some(e@),
        ),
    }
}

/// Check for hardware virtualization (see `cpu_virtualization_report`).
pub fn check_cpu_virtualization(p: &ReadOutcome) -> (r: DiagnosticResult)
    ensures
        cpu_virtualization_report(*p, r),
{
    match p {
        Ok(content) => {
            let chars = chars_of(content.as_str());
            let vmx = chars_of("vmx");
            let svm = chars_of("svm");
            if contains(&chars, &vmx) {
                result(
                    "CPU Virtualization",
                    DiagnosticStatus::Pass,
                    String::from_str("Intel VT-x (vmx) supported"),
                    None,
                )
            } else if contains(&chars, &svm) {
                result("CPU Virtualization", DiagnosticStatus::Pass, String::from_str("AMD-V (svm) supported"), None)
            } else {
                result(
                    "CPU Virtualization",
                    DiagnosticStatus::Error,
                    String::from_str("no CPU virtualization support detected"),
                    None,
                )
            }
        },
        Err(e) => result(
            "CPU Virtualization",
            DiagnosticStatus::Error,
            String::from_str("failed to read /proc/cpuinfo"),
            Some(e.clone()),
        ),
    }
}

/// The KVM verdict for opening `/dev/kvm`.
pub open spec fn kvm_availability_report(p: core::result::Result<(), String>, r: DiagnosticResult) -> bool {
    match p {
        Ok(()) => reports(r, "KVM Availability"@, DiagnosticStatus::Pass, "/dev/kvm is accessible"@, None),
        Err(e) => reports(r, "KVM Availability"@, DiagnosticStatus::Error, "/dev/kvm not accessible"@, Some(e@)),
    }
}

/// Check that `/dev/kvm` can be opened (see `kvm_availability_report`).
pub fn check_kvm_availability(p: &core::result::Result<(), String>) -> (r: DiagnosticResult)
    ensures
        kvm_availability_report(*p, r),
{
    match p {
        Ok(()) => result("KVM Availability", DiagnosticStatus::Pass, String::from_str("/dev/kvm is accessible"), None),
        Err(e) => result(
            "KVM Availability",
            DiagnosticStatus::Error,
            String::from_str("/dev/kvm not accessible"),
            Some(e.clone()),
        ),
    }
}

/// The API-version verdict for what `KVM_GET_API_VERSION` returned, or the
/// error that kept `/dev/kvm` from opening.
pub open spec fn kvm_api_version_report(p: core::result::Result<i32, String>, r: DiagnosticResult) -> bool {
    match p {
        Ok(v) => if v >= 0 {
            reports(r, "KVM API Version"@, DiagnosticStatus::Pass, "KVM API version "@ + signed_decimal(v as int), None)
        } else {
            reports(
                r,
                "KVM API Version"@,
                DiagnosticStatus::Error,
                "KVM_GET_API_VERSION ioctl failed"@,
                Some("ioctl returned "@ + signed_decimal(v as int)),
            )
        },
        Err(e) => reports(r, "KVM API Version"@, DiagnosticStatus::Warn, "skipped (KVM not available)"@, Some(e@)),
    }
}

/// Check the KVM API version (see `kvm_api_version_report`).
pub fn check_kvm_api_version(p: &core::result::Result<i32, String>) -> (r: DiagnosticResult)
    ensures
        kvm_api_version_report(*p, r),
{
    match p {
        Ok(v) => {
            if *v >= 0 {
                result(
                    "KVM API Version",
                    DiagnosticStatus::Pass,
                    String::from_str("KVM API version ").concat(i32_to_decimal(*v).as_str()),
                    None,
                )
            } else {
                result(
                    "KVM API Version",
                    DiagnosticStatus::Error,
                    String::from_str("KVM_GET_API_VERSION ioctl failed"),
                    Some(String::from_str("ioctl returned ").concat(i32_to_decimal(*v).as_str())),
                )
            }
        },
        Err(e) => result(
            "KVM API Version",
            DiagnosticStatus::Warn,
            String::from_str("skipped (KVM not available)"),
            Some(e.clone()),
        ),
    }
}

/// The available memory in kB that `/proc/meminfo` reports: the first
/// word after `MemAvailable:` on the first line that starts with it, read
/// as a number (0 when it is not one); `None` when there is no such line
/// or no word on it.
pub open spec fn mem_available_kb(content: Seq<char>) -> Option<u64> {
    match after_prefixed_line(content, "MemAvailable:"@, 0) {
        Some(rest) => match first_token(rest) {
            Some(word) => Some(
                match parse_u64_spec(word) {
                    Some(v) => v,
                    None => 0,
                },
            ),
            None => None,
        },
        None => None,
    }
}

/// The verdict for `mb` megabytes of available memory: fine from 2048 MB,
/// a warning from 512 MB, an error below.
pub open spec fn ram_status(mb: u64) -> DiagnosticStatus {
    if mb >= 2048 {
        DiagnosticStatus::Pass
    } else if mb >= 512 {
        DiagnosticStatus::Warn
    } else {
        DiagnosticStatus::Error
    }
}

/// The memory verdict for the contents of `/proc/meminfo`.
pub open spec fn available_ram_report(p: ReadOutcome, r: DiagnosticResult) -> bool {
    match p {
        Ok(content) => match mem_available_kb(content@) {
            Some(kb) => reports(
                r,
                "Available RAM"@,
                ram_status(kb / 1024),
                decimal((kb / 1024) as nat) + " MB available"@,
                Some(decimal(kb as nat) + " kB"@),
            ),
            None => reports(
                r,
                "Available RAM"@,
                DiagnosticStatus::Warn,
                "MemAvailable not found in /proc/meminfo"@,
                None,
            ),
        },
        Err(e) => reports(r, "Available RAM"@, DiagnosticStatus::Error, "failed to read /proc/meminfo"@, Some(e@)),
    }
}

/// Check the memory available to guests (see `available_ram_report`).
pub fn check_available_ram(p: &ReadOutcome) -> (r: DiagnosticResult)
    ensures
        available_ram_report(*p, r),
{
    match p {
        Ok(content) => {
            let chars = chars_of(content.as_str());
            let prefix = chars_of("MemAvailable:");
            let found = match find_prefixed_line(&chars, &prefix) {
                Some(rest) => {
                    assert(rest@.subrange(0, rest@.len() as int) =~= rest@);
                    match token_at(&rest, 0) {
                        Some(word) => Some(
                            match parse_u64(&word) {
                                Some(v) => v,
                                None => 0,
                            },
                        ),
                        None => None,
                    }
                },
                None => None,
            };
            match found {
                Some(kb) => {
                    let mb = kb / 1024;
                    let status = if mb >= 2048 {
                        DiagnosticStatus::Pass
                    } else if mb >= 512 {
                        DiagnosticStatus::Warn
                    } else {
                        DiagnosticStatus::Error
                    };
                    result(
                        "Available RAM",
                        status,
                        u64_to_decimal(mb).concat(" MB available"),
                        Some(u64_to_decimal(kb).concat(" kB")),
                    )
                },
                None => result(
                    "Available RAM",
                    DiagnosticStatus::Warn,
                    String::from_str("MemAvailable not found in /proc/meminfo"),
                    None,
                ),
            }
        },
        Err(e) => result(
            "Available RAM",
            DiagnosticStatus::Error,
            String::from_str("failed to read /proc/meminfo"),
            Some(e.clone()),
        ),
    }
}

/// What `statvfs` said of the data directory's file system.
#[derive(Debug, Clone, Copy, PartialEq, Eq, Structural)]
pub enum FsProbe {
    /// The directory's path cannot be handed to the system (it holds a NUL).
    InvalidPath,
    /// `statvfs` failed.
    StatFailed,
    /// Block size, total blocks and blocks available to unprivileged users.
    Stats { block_size: u64, blocks: u64, available_blocks: u64 },
}

/// Whether the byte counts of `p` fit in 64 bits.
pub open spec fn fs_probe_in_range(p: FsProbe) -> bool {
    p matches FsProbe::Stats { block_size, blocks, available_blocks } ==> blocks * block_size <= u64::MAX
        && available_blocks * block_size <= u64::MAX
}

/// The verdict for `gb` GiB of free disk space: fine from 10, a warning
/// from 2, an error below.
pub open spec fn disk_status(gb: u64) -> DiagnosticStatus {
    if gb >= 10 {
        DiagnosticStatus::Pass
    } else if gb >= 2 {
        DiagnosticStatus::Warn
    } else {
        DiagnosticStatus::Error
    }
}

/// The disk verdict for the file system of `data_dir`.
pub open spec fn disk_space_report(data_dir: Seq<char>, p: FsProbe, r: DiagnosticResult) -> bool {
    match p {
        FsProbe::InvalidPath => reports(r, "Disk Space"@, DiagnosticStatus::Error, "invalid data directory path"@, None),
        FsProbe::StatFailed => reports(r, "Disk Space"@, DiagnosticStatus::Error, "statvfs failed"@, None),
        FsProbe::Stats { block_size, blocks, available_blocks } => {
            let total = ((blocks * block_size) / 0x40000000) as nat;
            let available = ((available_blocks * block_size) / 0x40000000) as nat;
            reports(
                r,
                "Disk Space"@,
                disk_status(available as u64),
                decimal(available) + " GB available ("@ + decimal(total) + " GB total)"@,
                Some("data dir: "@ + data_dir),
            )
        },
    }
}

/// Check the free space for device data (see `disk_space_report`).
pub fn check_disk_space(data_dir: &str, p: &FsProbe) -> (r: DiagnosticResult)
    requires
        fs_probe_in_range(*p),
    ensures
        disk_space_report(data_dir@, *p, r),
{
    match p {
        FsProbe::InvalidPath => result(
            "Disk Space",
            DiagnosticStatus::Error,
            String::from_str("invalid data directory path"),
            None,
        ),
        FsProbe::StatFailed => result("Disk Space", DiagnosticStatus::Error, String::from_str("statvfs failed"), None),
        FsProbe::Stats { block_size, blocks, available_blocks } => {
            let total_gb = (*blocks * *block_size) / (1024 * 1024 * 1024);
            let available_gb = (*available_blocks * *block_size) / (1024 * 1024 * 1024);
            let status = if available_gb >= 10 {
                DiagnosticStatus::Pass
            } else if available_gb >= 2 {
                DiagnosticStatus::Warn
            } else {
                DiagnosticStatus::Error
            };
            let message = u64_to_decimal(available_gb).concat(" GB available (").concat(
                u64_to_decimal(total_gb).as_str(),
            ).concat(" GB total)");
            result("Disk Space", status, message, Some(String::from_str("data dir: ").concat(data_dir)))
        },
    }
}

/// The name of the GPU vendor with PCI id `id`.
pub open spec fn gpu_vendor_name(id: Seq<char>) -> Seq<char> {
    if id == "0x8086"@ {
        "Intel"@
    } else if id == "0x10de"@ {
        "NVIDIA"@
    } else if id == "0x1002"@ {
        "AMD"@
    } else {
        "Unknown"@
    }
}

/// The GPU verdict for the contents of the first DRM card's vendor file.
pub open spec fn gpu_info_report(p: ReadOutcome, r: DiagnosticResult) -> bool {
    match p {
        Ok(content) => reports(
            r,
            "GPU Info"@,
            DiagnosticStatus::Pass,
            gpu_vendor_name(trim(content@)) + " ("@ + trim(content@) + ")"@,
            None,
        ),
        Err(e) => reports(r, "GPU Info"@, DiagnosticStatus::Warn, "GPU vendor not detected"@, Some(e@)),
    }
}

/// Check which GPU the host has (see `gpu_info_report`).
pub fn check_gpu_info(p: &ReadOutcome) -> (r: DiagnosticResult)
    ensures
        gpu_info_report(*p, r),
{
    match p {
        Ok(content) => {
            let chars = chars_of(content.as_str());
            let vendor = string_of(&trimmed(&chars));
            let name = if crate::text::str_eq(vendor.as_str(), "0x8086") {
                "Intel"
            } else if crate::text::str_eq(vendor.as_str(), "0x10de") {
                "NVIDIA"
            } else if crate::text::str_eq(vendor.as_str(), "0x1002") {
                "AMD"
            } else {
                "Unknown"
            };
            let message = String::from_str(name).concat(" (").concat(vendor.as_str()).concat(")");
            result("GPU Info", DiagnosticStatus::Pass, message, None)
        },
        Err(e) => result("GPU Info", DiagnosticStatus::Warn, String::from_str("GPU vendor not detected"), Some(e.clone())),
    }
}

/// The namespace verdict for whether a NETLINK socket could be created.
pub open spec fn network_namespace_report(created: bool, r: DiagnosticResult) -> bool {
    if created {
        reports(r, "Network Namespace"@, DiagnosticStatus::Pass, "NETLINK socket created successfully"@, None)
    } else {
        reports(
            r,
            "Network Namespace"@,
            DiagnosticStatus::Warn,
            "NETLINK socket creation failed (may need CAP_NET_ADMIN)"@,
            None,
        )
    }
}

/// Check network-namespace support (see `network_namespace_report`).
pub fn check_network_namespace(created: bool) -> (r: DiagnosticResult)
    ensures
        network_namespace_report(created, r),
{
    if created {
        result(
            "Network Namespace",
            DiagnosticStatus::Pass,
            String::from_str("NETLINK socket created successfully"),
            None,
        )
    } else {
        result(
            "Network Namespace",
            DiagnosticStatus::Warn,
            String::from_str("NETLINK socket creation failed (may need CAP_NET_ADMIN)"),
            None,
        )
    }
}

/// What `which adb` gave: its standard output when it succeeded, `None`
/// when it ran and failed, or the error that kept it from running.
pub type WhichOutcome = core::result::Result<Option<String>, String>;

/// The ADB verdict for the outcome of `which adb`.
pub open spec fn adb_in_path_report(p: WhichOutcome, r: DiagnosticResult) -> bool {
    match p {
        Ok(Some(out)) => reports(r, "ADB in PATH"@, DiagnosticStatus::Pass, "adb found: "@ + trim(out@), None),
        Ok(None) => reports(r, "ADB in PATH"@, DiagnosticStatus::Error, "adb not found in PATH"@, None),
        Err(e) => reports(r, "ADB in PATH"@, DiagnosticStatus::Error, "failed to check for adb"@, Some(e@)),
    }
}

/// Check that `adb` is on the search path (see `adb_in_path_report`).
pub fn check_adb_in_path(p: &WhichOutcome) -> (r: DiagnosticResult)
    ensures
        adb_in_path_report(*p, r),
{
    match p {
        Ok(Some(out)) => {
            let chars = chars_of(out.as_str());
            let path = string_of(&trimmed(&chars));
            result("ADB in PATH", DiagnosticStatus::Pass, String::from_str("adb found: ").concat(path.as_str()), None)
        },
        Ok(None) => result("ADB in PATH", DiagnosticStatus::Error, String::from_str("adb not found in PATH"), None),
        Err(e) => result(
            "ADB in PATH",
            DiagnosticStatus::Error,
            String::from_str("failed to check for adb"),
            Some(e.clone()),
        ),
    }
}

/// The directory whose file system the disk check measures:
/// `DEFAULT_DATA_DIR` with a leading `~/` expanded against `home`, or
/// `/tmp` when there is no home directory.
pub open spec fn diagnostics_dir_spec(home: Option<Seq<char>>) -> Seq<char> {
    let d = DEFAULT_DATA_DIR@;
    if d.len() >= 2 && d[0] == '~' && d[1] == '/' {
        match home {
            Some(h) => h + "/"@ + d.skip(2),
            None => "/tmp"@,
        }
    } else {
        d
    }
}

/// The data directory the disk check measures, for home directory `home`
/// (see `diagnostics_dir_spec`).
pub fn diagnostics_data_dir_in(home: Option<String>) -> (r: String)
    ensures
        r@ == diagnostics_dir_spec(opt_view(home)),
{
    let d = DEFAULT_DATA_DIR;
    let n = d.unicode_len();
    if n >= 2 && d.get_char(0) == '~' && d.get_char(1) == '/' {
        match home {
            Some(h) => {
                let rest = d.substring_char(2, n);
                assert(rest@ =~= d@.skip(2));
                h.concat("/").concat(rest)
            },
            None => String::from_str("/tmp"),
        }
    } else {
        String::from_str(d)
    }
}

/// The data directory the disk check measures, for the user's home
/// directory as the environment reports it.
pub fn diagnostics_data_dir() -> (r: String)
    ensures
        exists|home: Option<Seq<char>>| r@ == #[trigger] diagnostics_dir_spec(home),
{
    let home = home_dir();
    let ghost h = opt_view(home);
    let r = diagnostics_data_dir_in(home);
    assert(r@ == diagnostics_dir_spec(h));
    r
}

/// What probing the host found, one field per check.
pub struct HostProbe {
    /// Contents of `/proc/version`.
    pub proc_version: ReadOutcome,
    /// The machine name from `uname`, if it succeeded.
    pub machine: Option<String>,
    /// Contents of `/proc/cpuinfo`.
    pub cpuinfo: ReadOutcome,
    /// Whether `/dev/kvm` opened.
    pub kvm_device: core::result::Result<(), String>,
    /// What `KVM_GET_API_VERSION` returned, if `/dev/kvm` opened.
    pub kvm_api_version: core::result::Result<i32, String>,
    /// Contents of `/proc/meminfo`.
    pub meminfo: ReadOutcome,
    /// The data directory measured (see `diagnostics_data_dir`).
    pub data_dir: String,
    /// `statvfs` of the data directory.
    pub fs: FsProbe,
    /// Contents of `/sys/class/drm/card0/device/vendor`.
    pub gpu_vendor: ReadOutcome,
    /// Whether a NETLINK socket could be created.
    pub netlink_socket: bool,
    /// The outcome of `which adb`.
    pub adb: WhichOutcome,
}

/// Run all system diagnostics on what the probes found: kernel version,
/// CPU architecture, CPU virtualization, KVM availability, KVM API version,
/// available RAM, disk space, GPU, network namespace and ADB, in this order.
pub fn run_diagnostics(probe: &HostProbe) -> (v: Vec<DiagnosticResult>)
    requires
        fs_probe_in_range(probe.fs),
    ensures
        v@.len() == 10,
        kernel_version_report(probe.proc_version, v@[0]),
        cpu_arch_report(probe.machine, v@[1]),
        cpu_virtualization_report(probe.cpuinfo, v@[2]),
        kvm_availability_report(probe.kvm_device, v@[3]),
        kvm_api_version_report(probe.kvm_api_version, v@[4]),
        available_ram_report(probe.meminfo, v@[5]),
        disk_space_report(probe.data_dir@, probe.fs, v@[6]),
        gpu_info_report(probe.gpu_vendor, v@[7]),
        network_namespace_report(probe.netlink_socket, v@[8]),
        adb_in_path_report(probe.adb, v@[9]),
{
    let mut results: Vec<DiagnosticResult> = Vec::new();
    results.push(check_kernel_version(&probe.proc_version));
    results.push(check_cpu_arch(&probe.machine));
    results.push(check_cpu_virtualization(&probe.cpuinfo));
    results.push(check_kvm_availability(&probe.kvm_device));
    results.push(check_kvm_api_version(&probe.kvm_api_version));
    results.push(check_available_ram(&probe.meminfo));
    results.push(check_disk_space(probe.data_dir.as_str(), &probe.fs));
    results.push(check_gpu_info(&probe.gpu_vendor));
    results.push(check_network_namespace(probe.netlink_socket));
    results.push(check_adb_in_path(&probe.adb));
    results
}

} // verus!
