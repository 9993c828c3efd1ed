use litedroid::diagnostics::{
    check_adb_in_path, check_available_ram, check_cpu_arch, check_cpu_virtualization, check_disk_space,
    check_gpu_info, check_kernel_version, check_kvm_api_version, check_kvm_availability,
    check_network_namespace, diagnostics_data_dir_in, run_diagnostics, DiagnosticResult, DiagnosticStatus,
    FsProbe, HostProbe,
};
use litedroid::frontend::doctor_summary;

fn verdict(r: &DiagnosticResult) -> (String, DiagnosticStatus, String, Option<String>) {
    (r.name.clone(), r.status, r.message.clone(), r.details.clone())
}

#[test]
fn kernel_version_takes_the_first_word() {
    let r = check_kernel_version(&Ok("  Linux version 6.1.0 (gcc)\n".to_string()));
    assert_eq!(
        verdict(&r),
        (
            "Kernel Version".to_string(),
            DiagnosticStatus::Pass,
            "Linux".to_string(),
            Some("Linux version 6.1.0 (gcc)".to_string())
        )
    );
    let empty = check_kernel_version(&Ok(" \n\t".to_string()));
    assert_eq!(empty.message, "unknown");
    assert_eq!(empty.details, Some(String::new()));
    let err = check_kernel_version(&Err("denied".to_string()));
    assert_eq!(err.status, DiagnosticStatus::Error);
    assert_eq!(err.message, "failed to read /proc/version");
    assert_eq!(err.details, Some("denied".to_string()));
}

#[test]
fn cpu_architecture_reports_uname() {
    let r = check_cpu_arch(&Some("x86_64".to_string()));
    assert_eq!(r.message, "x86_64");
    assert_eq!(r.details, Some("uname -m: x86_64".to_string()));
    let e = check_cpu_arch(&None);
    assert_eq!((e.status, e.message.as_str(), e.details), (DiagnosticStatus::Error, "uname failed", None));
}

#[test]
fn virtualization_flags_are_found() {
    let intel = check_cpu_virtualization(&Ok("flags : fpu vmx sse".to_string()));
    assert_eq!(intel.message, "Intel VT-x (vmx) supported");
    let amd = check_cpu_virtualization(&Ok("flags : fpu svm".to_string()));
    assert_eq!(amd.message, "AMD-V (svm) supported");
    let none = check_cpu_virtualization(&Ok("flags : fpu sse vm x".to_string()));
    assert_eq!(none.status, DiagnosticStatus::Error);
    assert_eq!(none.message, "no CPU virtualization support detected");
    let err = check_cpu_virtualization(&Err("gone".to_string()));
    assert_eq!(err.message, "failed to read /proc/cpuinfo");
}

#[test]
fn kvm_device_and_api_version() {
    assert_eq!(check_kvm_availability(&Ok(())).message, "/dev/kvm is accessible");
    let missing = check_kvm_availability(&Err("No such file".to_string()));
    assert_eq!(missing.status, DiagnosticStatus::Error);
    assert_eq!(missing.details, Some("No such file".to_string()));
    assert_eq!(check_kvm_api_version(&Ok(12)).message, "KVM API version 12");
    let failed = check_kvm_api_version(&Ok(-1));
    assert_eq!(failed.status, DiagnosticStatus::Error);
    assert_eq!(failed.details, Some("ioctl returned -1".to_string()));
    let skipped = check_kvm_api_version(&Err("denied".to_string()));
    assert_eq!(skipped.status, DiagnosticStatus::Warn);
    assert_eq!(skipped.message, "skipped (KVM not available)");
}

#[test]
fn available_memory_is_graded() {
    let meminfo = "MemTotal:       16000000 kB\r\nMemFree: 1 kB\nMemAvailable:    4194304 kB\nMemAvailable: 1 kB\n";
    let r = check_available_ram(&Ok(meminfo.to_string()));
    assert_eq!(
        verdict(&r),
        (
            "Available RAM".to_string(),
            DiagnosticStatus::Pass,
            "4096 MB available".to_string(),
            Some("4194304 kB".to_string())
        )
    );
    let low = check_available_ram(&Ok("MemAvailable: 1048576 kB\n".to_string()));
    assert_eq!((low.status, low.message.as_str()), (DiagnosticStatus::Warn, "1024 MB available"));
    let tiny = check_available_ram(&Ok("MemAvailable: 1000 kB".to_string()));
    assert_eq!((tiny.status, tiny.message.as_str()), (DiagnosticStatus::Error, "0 MB available"));
    let junk = check_available_ram(&Ok("MemAvailable: lots\n".to_string()));
    assert_eq!(junk.details, Some("0 kB".to_string()));
    let absent = check_available_ram(&Ok("MemTotal: 5 kB\n MemAvailable: 5 kB\n".to_string()));
    assert_eq!(absent.message, "MemAvailable not found in /proc/meminfo");
    let bare = check_available_ram(&Ok("MemAvailable:\nMemAvailable: 9 kB\n".to_string()));
    assert_eq!(bare.status, DiagnosticStatus::Warn);
    let err = check_available_ram(&Err("x".to_string()));
    assert_eq!(err.message, "failed to read /proc/meminfo");
}

#[test]
fn disk_space_is_graded() {
    let gib = 1024u64 * 1024 * 1024;
    let big = check_disk_space(
        "/data",
        &FsProbe::Stats { block_size: 4096, blocks: 100 * gib / 4096, available_blocks: 20 * gib / 4096 },
    );
    assert_eq!(big.status, DiagnosticStatus::Pass);
    assert_eq!(big.message, "20 GB available (100 GB total)");
    assert_eq!(big.details, Some("data dir: /data".to_string()));
    let mid = check_disk_space("/d", &FsProbe::Stats { block_size: 1024, blocks: 0, available_blocks: 3 * gib / 1024 });
    assert_eq!(mid.status, DiagnosticStatus::Warn);
    let low = check_disk_space("/d", &FsProbe::Stats { block_size: 512, blocks: 8, available_blocks: 8 });
    assert_eq!((low.status, low.message.as_str()), (DiagnosticStatus::Error, "0 GB available (0 GB total)"));
    assert_eq!(check_disk_space("/d", &FsProbe::StatFailed).message, "statvfs failed");
    assert_eq!(check_disk_space("/d", &FsProbe::InvalidPath).message, "invalid data directory path");
}

#[test]
fn gpu_vendors_are_named() {
    assert_eq!(check_gpu_info(&Ok("0x8086\n".to_string())).message, "Intel (0x8086)");
    assert_eq!(check_gpu_info(&Ok("0x10de".to_string())).message, "NVIDIA (0x10de)");
    assert_eq!(check_gpu_info(&Ok(" 0x1002 ".to_string())).message, "AMD (0x1002)");
    assert_eq!(check_gpu_info(&Ok("0x1234".to_string())).message, "Unknown (0x1234)");
    let none = check_gpu_info(&Err("missing".to_string()));
    assert_eq!((none.status, none.message.as_str()), (DiagnosticStatus::Warn, "GPU vendor not detected"));
}

#[test]
fn netlink_and_adb_checks() {
    assert_eq!(check_network_namespace(true).message, "NETLINK socket created successfully");
    let w = check_network_namespace(false);
    assert_eq!(w.status, DiagnosticStatus::Warn);
    assert_eq!(check_adb_in_path(&Ok(Some("/usr/bin/adb\n".to_string()))).message, "adb found: /usr/bin/adb");
    assert_eq!(check_adb_in_path(&Ok(None)).message, "adb not found in PATH");
    let e = check_adb_in_path(&Err("no which".to_string()));
    assert_eq!((e.message.as_str(), e.details), ("failed to check for adb", Some("no which".to_string())));
}

#[test]
fn result_lines() {
    let r = check_cpu_arch(&Some("aarch64".to_string()));
    assert_eq!(r.to_string(), "\u{2713} CPU Architecture: aarch64 (uname -m: aarch64)");
    let n = check_network_namespace(false);
    assert_eq!(
        n.to_string(),
        "\u{26a0} Network Namespace: NETLINK socket creation failed (may need CAP_NET_ADMIN)"
    );
    assert_eq!(DiagnosticStatus::Error.to_string(), "\u{2717}");
}

#[test]
fn data_directory_for_disk_check() {
    assert_eq!(diagnostics_data_dir_in(Some("/home/u".to_string())), "/home/u/.local/share/litedroid");
    assert_eq!(diagnostics_data_dir_in(None), "/tmp");
}

fn sample_probe() -> HostProbe {
    HostProbe {
        proc_version: Ok("Linux version 6".to_string()),
        machine: Some("x86_64".to_string()),
        cpuinfo: Ok("vmx".to_string()),
        kvm_device: Ok(()),
        kvm_api_version: Ok(12),
        meminfo: Ok("MemAvailable: 8388608 kB".to_string()),
        data_dir: "/data".to_string(),
        fs: FsProbe::StatFailed,
        gpu_vendor: Err("none".to_string()),
        netlink_socket: true,
        adb: Ok(None),
    }
}

#[test]
fn diagnostics_run_in_order() {
    let results = run_diagnostics(&sample_probe());
    let names: Vec<&str> = results.iter().map(|r| r.name.as_str()).collect();
    assert_eq!(
        names,
        vec![
            "Kernel Version",
            "CPU Architecture",
            "CPU Virtualization",
            "KVM Availability",
            "KVM API Version",
            "Available RAM",
            "Disk Space",
            "GPU Info",
            "Network Namespace",
            "ADB in PATH"
        ]
    );
    let (line, code) = doctor_summary(&results);
    assert_eq!(line, "Result: 2 error(s), 1 warning(s)");
    assert_eq!(code, 1);
}

#[test]
fn doctor_verdicts() {
    let warn_only = vec![check_network_namespace(false), check_network_namespace(true)];
    assert_eq!(doctor_summary(&warn_only), ("Result: 1 warning(s)".to_string(), 0));
    let clean = vec![check_network_namespace(true)];
    assert_eq!(doctor_summary(&clean), ("Result: all checks passed".to_string(), 0));
    assert_eq!(doctor_summary(&vec![]), ("Result: all checks passed".to_string(), 0));
}
