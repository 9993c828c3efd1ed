use std::sync::{Arc, Mutex};

use litedroid::audio::AudioDevice;
use litedroid::config::{apply_profile_metadata, expand_tilde_in, join_path, GlobalConfig, LiteDroidConfig};
use litedroid::constants::{DAEMON_SOCKET_PATH, DEFAULT_KERNEL_CMDLINE, VIRTIO_MMIO_START};
use litedroid::device::DeviceConfig;
use litedroid::devices::{fold_be, transmit_bytes, VirtDevice, VirtioBus, VirtioRngDevice, VirtioSerialDevice};
use litedroid::error::LiteDroidError;
use litedroid::frontend::{apply_device_options, choose_selection, new_profile_name, parse_resolution, take_auto_start, DeviceOptions};
use litedroid::graphics::Framebuffer;
use litedroid::input::{x11_to_linux_keycode, InputManager};
use litedroid::kvm::{capability_flag, capability_id, capability_name, cpuid_attempt, cpuid_step, CpuidStep, kvm_open_error, KvmCapabilities, CAPABILITY_COUNT, EACCES, ENODEV, ENOENT};
use litedroid::metrics::{MemoryStats, NetworkStats};
use litedroid::storage::{sectors, BlockBackend, VirtioBlkDevice};
use litedroid::types::{AndroidButton, InputEvent, MouseButton};

/// An entropy source that repeats `pattern` (and fails when it is empty).
fn fixed_entropy(pattern: Vec<u8>) -> impl Fn(usize) -> Option<Vec<u8>> + Send + Sync {
    move |len: usize| {
        if pattern.is_empty() {
            None
        } else {
            Some(pattern.iter().cycle().take(len).cloned().collect())
        }
    }
}

#[test]
fn bus_routes_by_window() {
    let mut bus = VirtioBus::new();
    assert_eq!(bus.device_count(), 0);
    bus.add_device(Box::new(VirtioRngDevice::new(fixed_entropy(vec![0xab])))).unwrap();
    bus.add_device(Box::new(AudioDevice::new())).unwrap();
    assert_eq!(bus.device_count(), 2);
    assert_eq!(bus.read(VIRTIO_MMIO_START, 4), 0x74726976);
    assert_eq!(bus.read(VIRTIO_MMIO_START + 8, 4), 4);
    assert_eq!(bus.read(VIRTIO_MMIO_START + 0x100, 2), 0xabab);
    assert_eq!(bus.read(VIRTIO_MMIO_START + 0x200 + 0x08, 4), 48000);
    assert_eq!(bus.read(VIRTIO_MMIO_START + 0x400, 4), 0);
    assert_eq!(bus.read(0x1000, 4), 0);
    bus.write(VIRTIO_MMIO_START + 0x40, 4, 9);
    assert_eq!(bus.read(VIRTIO_MMIO_START + 0x40, 4), 9);
    bus.reset_all();
    assert_eq!(bus.read(VIRTIO_MMIO_START + 0x40, 4), 0);
}

#[test]
fn bus_holds_at_most_sixteen_devices() {
    let mut bus = VirtioBus::new();
    for _ in 0..16 {
        bus.add_device(Box::new(AudioDevice::new())).unwrap();
    }
    assert!(bus.add_device(Box::new(AudioDevice::new())).is_err());
    assert_eq!(bus.device_count(), 16);
}

#[test]
fn rng_failure_reads_zero() {
    let mut rng = VirtioRngDevice::new(fixed_entropy(vec![]));
    assert_eq!(rng.mmio_read(0x100, 4), 0);
    assert_eq!(rng.name(), "virtio-rng");
    assert_eq!(fold_be(&[1, 2, 3]), 0x010203);
}

#[test]
fn serial_transmits_low_bytes() {
    let out = Arc::new(Mutex::new(Vec::<u8>::new()));
    let sink = Arc::clone(&out);
    let mut serial = VirtioSerialDevice::new(move |d: &[u8]| sink.lock().unwrap().extend_from_slice(d));
    serial.mmio_write(0x100, 2, 0x4241);
    serial.mmio_write(0x100, 1, 0x0a);
    assert_eq!(*out.lock().unwrap(), b"AB\n".to_vec());
    serial.mmio_write(0x40, 4, 3);
    assert_eq!(serial.mmio_read(0x40, 4), 3);
    assert_eq!(serial.mmio_read(0x08, 4), 3);
}

#[test]
fn audio_buffer_drains_at_threshold() {
    let mut audio = AudioDevice::new();
    for i in 0..2047u64 {
        audio.mmio_write(0x04, 4, i);
    }
    audio.mmio_write(0x08, 4, 44100);
    assert_eq!(audio.mmio_read(0x08, 4), 44100);
    audio.mmio_write(0x0C, 4, 1);
    assert_eq!(audio.mmio_read(0x0C, 4), 1);
    audio.mmio_write(0x04, 4, 1);
    assert_eq!(audio.mmio_read(0x10, 4), 0);
}

struct SizedDisk(u64);

impl BlockBackend for SizedDisk {
    fn read_at(&self, _offset: u64, _len: usize) -> Result<Vec<u8>, LiteDroidError> {
        Ok(vec![])
    }
    fn write_at(&self, _offset: u64, data: &[u8]) -> Result<usize, LiteDroidError> {
        Ok(data.len())
    }
    fn size(&self) -> u64 {
        self.0
    }
}

#[test]
fn block_device_registers() {
    let mut blk = VirtioBlkDevice::new(Box::new(SizedDisk(1024 * 1024 + 100)));
    assert_eq!(blk.mmio_read(0x00, 4), 0x74726976);
    assert_eq!(blk.mmio_read(0x08, 4), 2);
    assert_eq!(blk.mmio_read(0x24, 4), 1);
    assert_eq!(blk.mmio_read(0x100, 8), 2048);
    blk.mmio_write(0x30, 4, 0xf);
    assert_eq!(blk.mmio_read(0x30, 4), 0xf);
    blk.reset();
    assert_eq!(blk.mmio_read(0x30, 4), 0);
    assert_eq!(blk.device_tree_compatible(), "virtio,block");
    assert_eq!(sectors(1023), 1);
}

#[test]
fn tilde_and_paths() {
    assert_eq!(expand_tilde_in("~/x/y", Some("/home/a".to_string())), "/home/a/x/y");
    assert_eq!(expand_tilde_in("~/x", None), "~/x");
    assert_eq!(expand_tilde_in("/abs", Some("/h".to_string())), "/abs");
    assert_eq!(expand_tilde_in("~user", Some("/h".to_string())), "~user");
    assert_eq!(join_path("/a", "b"), "/a/b");
    assert_eq!(join_path("/a/", "b"), "/a/b");
    assert_eq!(join_path("", "b"), "b");
}

#[test]
fn configuration_defaults() {
    let g = GlobalConfig::default();
    assert_eq!(g.socket_path, DAEMON_SOCKET_PATH);
    assert_eq!(g.log_level, "info");
    assert_eq!(g.data_dir, "~/.local/share/litedroid");
    let c = LiteDroidConfig::default();
    assert_eq!(c.global.config_dir, "~/.config/litedroid");
    let d = DeviceConfig::default();
    assert_eq!((d.vcpu_count, d.ram_mb, d.api_level), (4, 2048, 34));
    assert_eq!(d.kernel_cmdline, DEFAULT_KERNEL_CMDLINE);
    assert!(d.validate().is_ok());
}

fn config_error(c: &DeviceConfig) -> String {
    match c.validate() {
        Err(LiteDroidError::ConfigError(m)) => m,
        other => panic!("unexpected {other:?}"),
    }
}

#[test]
fn validation_reports_the_first_violation() {
    let mut c = DeviceConfig::default();
    c.ram_mb = 256;
    c.vcpu_count = 0;
    assert_eq!(config_error(&c), "RAM 256MB is below the minimum of 512MB");
    c.ram_mb = 9000;
    assert_eq!(config_error(&c), "RAM 9000MB exceeds the maximum of 8192MB");
    c.ram_mb = 512;
    assert_eq!(config_error(&c), "vCPU count must be at least 1");
    c.vcpu_count = 1;
    c.supported_abis.clear();
    assert_eq!(config_error(&c), "At least one ABI must be specified");
}

#[test]
fn device_create_options() {
    assert_eq!(parse_resolution("1280x720"), Some((1280, 720)));
    assert_eq!(parse_resolution("+1x2"), Some((1, 2)));
    assert_eq!(parse_resolution("1280X720"), None);
    assert_eq!(parse_resolution("x720"), None);
    assert_eq!(parse_resolution("12x34x5"), None);
    assert_eq!(parse_resolution("4294967296x1"), None);
    let cfg = apply_device_options(
        DeviceConfig::default(),
        DeviceOptions { name: "Tab".to_string(), resolution: Some("800x600".to_string()), dpi: Some(160), ram: Some(4096), cpu: None },
    );
    assert_eq!(cfg.name, "Tab");
    assert_eq!((cfg.display.width, cfg.display.height, cfg.display.dpi), (800, 600, 160));
    assert_eq!((cfg.ram_mb, cfg.vcpu_count), (4096, 4));
    let kept = apply_device_options(
        DeviceConfig::default(),
        DeviceOptions { name: "P".to_string(), resolution: Some("wide".to_string()), dpi: None, ram: None, cpu: Some(2) },
    );
    assert_eq!((kept.display.width, kept.display.height, kept.vcpu_count), (1080, 1920, 2));
}

#[test]
fn panel_selection_and_auto_start() {
    let names = vec!["a".to_string(), "b".to_string()];
    assert_eq!(choose_selection(&names, "b".to_string()), "b");
    assert_eq!(choose_selection(&names, "default".to_string()), "a");
    assert_eq!(choose_selection(&vec![], "default".to_string()), "default");
    let mut attempted = false;
    assert!(!take_auto_start(&mut attempted, false, 1));
    assert!(!attempted);
    assert!(!take_auto_start(&mut attempted, true, 0));
    assert!(!attempted);
    assert!(take_auto_start(&mut attempted, true, 1));
    assert!(attempted);
    assert!(!take_auto_start(&mut attempted, true, 1));
    assert!(!take_auto_start(&mut attempted, true, 3));
    assert!(attempted);
    assert_eq!(new_profile_name(2), "PixelLite-3");
}

#[test]
fn framebuffer_pixels() {
    let mut fb = Framebuffer::new(4, 3);
    assert_eq!((fb.width(), fb.height(), fb.stride(), fb.data().len()), (4, 3, 16, 48));
    fb.set_pixel(1, 2, 10, 20, 30, 40);
    assert_eq!(fb.get_pixel(1, 2), (10, 20, 30, 40));
    assert_eq!(fb.get_pixel(2, 1), (0, 0, 0, 0));
    fb.set_pixel(4, 0, 1, 1, 1, 1);
    assert_eq!(fb.get_pixel(4, 0), (0, 0, 0, 0));
    fb.fill([1, 2, 3, 4]);
    assert_eq!(fb.get_pixel(3, 2), (1, 2, 3, 4));
    let src = vec![9u8; 8];
    fb.blit_from(&src, 8, 3, 0, 2, 1);
    assert_eq!(fb.get_pixel(3, 0), (9, 9, 9, 9));
    let mut dst = vec![0u8; 8];
    fb.blit_to(&mut dst, 8, 2, 0, 2, 1);
    assert_eq!(dst, vec![1, 2, 3, 4, 9, 9, 9, 9]);
}

#[test]
fn input_queue_is_first_in_first_out() {
    let mut im = InputManager::new(1080, 1920);
    assert_eq!((im.display_width(), im.display_height()), (1080, 1920));
    assert_eq!(im.try_recv(), None);
    im.inject_key_down(30);
    im.inject_mouse_down(1, 2, MouseButton::Left);
    im.inject_android_button(AndroidButton::Home);
    assert_eq!(im.try_recv(), Some(InputEvent::KeyDown { keycode: 30 }));
    assert_eq!(im.try_recv(), Some(InputEvent::MouseDown { x: 1, y: 2, button: MouseButton::Left }));
    assert_eq!(im.recv_timeout(std::time::Duration::from_millis(1)).unwrap(), InputEvent::AndroidButton(AndroidButton::Home));
    match im.recv_timeout(std::time::Duration::from_millis(1)) {
        Err(LiteDroidError::InputError(m)) => assert_eq!(m, "channel recv timeout"),
        other => panic!("unexpected {other:?}"),
    }
}

#[test]
fn x11_keys_map_to_linux_codes() {
    assert_eq!(x11_to_linux_keycode(9), 1);
    assert_eq!(x11_to_linux_keycode(38), 30);
    assert_eq!(x11_to_linux_keycode(65), 57);
    assert_eq!(x11_to_linux_keycode(5000), 0);
}

#[test]
fn kvm_capability_table() {
    let mut flags = vec![false; CAPABILITY_COUNT];
    flags[0] = true;
    let caps = KvmCapabilities::from_flags(flags);
    assert!(caps.is_available("ADJUST_CLOCK"));
    assert!(!caps.is_available("ARM_PSCI"));
    assert!(!caps.is_available("NO_SUCH_CAP"));
    let s = caps.summary();
    assert!(s.starts_with("KVM capabilities:\n  \u{2713} ADJUST_CLOCK\n  \u{2717} ARM_PMU_V3, ARM_PSCI, "));
    for i in 1..CAPABILITY_COUNT {
        assert!(capability_name(i - 1) < capability_name(i));
    }
}

#[test]
fn kvm_open_errors() {
    assert!(matches!(kvm_open_error(ENOENT, String::new()), LiteDroidError::KvmUnavailable(m) if m.starts_with("/dev/kvm not found")));
    assert!(matches!(kvm_open_error(ENODEV, String::new()), LiteDroidError::KvmUnavailable(_)));
    assert!(matches!(kvm_open_error(EACCES, String::new()), LiteDroidError::PermissionDenied(m) if m.contains("'kvm' group")));
    assert_eq!(kvm_open_error(5, "I/O error".to_string()), LiteDroidError::KvmUnavailable("failed to open /dev/kvm: I/O error".to_string()));
}

#[test]
fn metrics_start_at_zero() {
    let m = MemoryStats::default();
    assert_eq!((m.total_bytes, m.used_bytes, m.rss_bytes), (0, 0, 0));
    let n = NetworkStats::default();
    assert_eq!((n.rx_bytes, n.tx_bytes, n.dropped_packets), (0, 0, 0));
}

#[test]
fn framebuffer_blit_roundtrip() {
    let mut fb = Framebuffer::new(4, 3);
    let src: Vec<u8> = (1..=16).collect();
    fb.blit_from(&src, 8, 1, 1, 2, 2);
    assert_eq!(fb.get_pixel(1, 1), (1, 2, 3, 4));
    assert_eq!(fb.get_pixel(2, 2), (13, 14, 15, 16));
    assert_eq!(fb.get_pixel(0, 0), (0, 0, 0, 0));
    let mut out = vec![0xeeu8; 20];
    fb.blit_to(&mut out, 10, 1, 1, 2, 2);
    assert_eq!(&out[0..8], &src[0..8]);
    assert_eq!(&out[8..10], &[0xee, 0xee]);
    assert_eq!(&out[10..18], &src[8..16]);
}

#[test]
fn kvm_capability_numbers() {
    assert_eq!(capability_id(0), kvm_bindings::KVM_CAP_ADJUST_CLOCK as u64);
    assert_eq!(capability_id(14), kvm_bindings::KVM_CAP_HLT as u64);
    assert_eq!(capability_id(22), kvm_bindings::KVM_CAP_IRQCHIP as u64);
    for i in 0..CAPABILITY_COUNT {
        for j in 0..i {
            assert_ne!(capability_id(i), capability_id(j));
        }
    }
}

#[test]
fn capability_probes_become_flags() {
    assert!(capability_flag(1));
    assert!(capability_flag(4096));
    assert!(!capability_flag(0));
    assert!(!capability_flag(-22));
    let mut raw = vec![0i32; CAPABILITY_COUNT];
    raw[0] = 1;
    raw[14] = 8;
    raw[22] = -1;
    let caps = KvmCapabilities::from_probes(&raw);
    assert!(caps.is_available("ADJUST_CLOCK"));
    assert!(caps.is_available("HLT"));
    assert!(!caps.is_available("IRQCHIP"));
    assert!(!caps.is_available("ARM_PSCI"));
}

#[test]
fn cpuid_sizes_shrink_then_give_up() {
    assert_eq!([cpuid_attempt(0), cpuid_attempt(1), cpuid_attempt(2), cpuid_attempt(3)], [256, 128, 64, 32]);
    assert!(matches!(cpuid_step(0, Err(kvm_ioctls::Error::new(7))), CpuidStep::Retry(128)));
    assert!(matches!(cpuid_step(1, Err(kvm_ioctls::Error::new(7))), CpuidStep::Retry(64)));
    assert!(matches!(cpuid_step(2, Err(kvm_ioctls::Error::new(7))), CpuidStep::Retry(32)));
    match cpuid_step(3, Err(kvm_ioctls::Error::new(7))) {
        CpuidStep::GiveUp(LiteDroidError::KvmIoctl(m)) => {
            assert!(m.starts_with("KVM_GET_SUPPORTED_CPUID failed after retries: "))
        }
        _ => panic!("expected to give up"),
    }
}

#[test]
fn blit_right_of_the_framebuffer_changes_nothing() {
    let mut fb = Framebuffer::new(4, 3);
    fb.set_pixel(3, 0, 1, 2, 3, 4);
    fb.blit_from(&[9u8; 16], 8, 5, 0, 2, 2);
    assert_eq!(fb.get_pixel(3, 0), (1, 2, 3, 4));
    assert_eq!(fb.get_pixel(0, 0), (0, 0, 0, 0));
    fb.blit_from(&[9u8; 16], 8, 4, 0, 2, 2);
    assert_eq!(fb.get_pixel(3, 0), (1, 2, 3, 4));
}

#[test]
fn framebuffer_blit_roundtrip_clamped() {
    let mut fb = Framebuffer::new(4, 3);
    let src: Vec<u8> = (1..=32).collect();
    fb.blit_from(&src, 16, 2, 1, 4, 4);
    let mut out = vec![0u8; 32];
    fb.blit_to(&mut out, 16, 2, 1, 4, 4);
    assert_eq!(&out[0..8], &src[0..8]);
    assert_eq!(&out[16..24], &src[16..24]);
}

#[test]
fn input_queue_keeps_order_and_drops_when_full() {
    let mut im = InputManager::new(10, 10);
    for k in 0..1025u32 {
        im.inject_key_down(k);
    }
    for k in 0..1024u32 {
        assert_eq!(im.try_recv(), Some(InputEvent::KeyDown { keycode: k }));
    }
    assert_eq!(im.try_recv(), None);
    im.inject_key_up(5);
    assert_eq!(im.recv_timeout(std::time::Duration::MAX).unwrap(), InputEvent::KeyUp { keycode: 5 });
}

#[test]
fn profile_metadata_overrides_defaults() {
    let mut d = DeviceConfig::default();
    let dpi = d.display.dpi;
    apply_profile_metadata(&mut d, "Pixel".to_string(), Some(33), None, Some(6));
    assert_eq!((d.name.as_str(), d.api_level, d.ram_mb, d.vcpu_count), ("Pixel", 33, 2048, 6));
    assert_eq!(d.display.dpi, dpi);
    apply_profile_metadata(&mut d, "Big".to_string(), None, Some(8192), Some((1u64 << 32) + 3));
    assert_eq!((d.api_level, d.ram_mb, d.vcpu_count), (33, 8192, 3));
}

#[test]
fn devices_dir_is_data_dir_joined_with_devices() {
    let mut c = LiteDroidConfig::default();
    c.global.data_dir = "/var/lib/litedroid".to_string();
    assert_eq!(c.devices_dir(), "/var/lib/litedroid/devices");
    assert_eq!(c.devices_dir(), join_path(&c.data_dir(), "devices"));
}

#[test]
fn rng_asks_for_the_read_size() {
    let asked = Arc::new(Mutex::new(Vec::<usize>::new()));
    let log = Arc::clone(&asked);
    let mut rng = VirtioRngDevice::new(move |len: usize| {
        log.lock().unwrap().push(len);
        Some((1..=len as u8).collect())
    });
    assert_eq!(rng.mmio_read(0x100, 3), 0x010203);
    assert_eq!(rng.mmio_read(0x100, 1), 0x01);
    assert_eq!(rng.mmio_read(0x40, 4), 0);
    assert_eq!(*asked.lock().unwrap(), vec![3, 1]);
}

#[test]
fn serial_transmit_bytes_are_low_bytes() {
    assert_eq!(transmit_bytes(0x6968, 2), b"hi".to_vec());
    assert_eq!(transmit_bytes(0x0102030405060708, 20), vec![8, 7, 6, 5, 4, 3, 2, 1]);
    assert_eq!(transmit_bytes(0xff, 0), Vec::<u8>::new());
}
