use litedroid::daemon::{
    already_running, android_tool_paths, avd_name, classify_method, missing_tools_message, refusal,
    requested_device, sdk_root, start_failure, DaemonState, EmulatorObservation, MethodKind, StartStep,
};
use litedroid::devices::VirtDevice;
use litedroid::error::LiteDroidError;
use litedroid::network::{
    find_default_route, host_interface_from, ifname_bytes, ifname_from_bytes, nat_interface, nat_rules, parse_ip,
    parse_ipv4, VirtioNetDevice,
};

#[test]
fn dotted_quads_parse() {
    assert_eq!(parse_ipv4("10.0.2.1"), Some(0x0a000201));
    assert_eq!(parse_ipv4("255.255.255.0"), Some(0xffffff00));
    assert_eq!(parse_ipv4("0.0.0.0"), Some(0));
    for bad in ["", "1.2.3", "1.2.3.4.5", "256.1.1.1", "01.2.3.4", "1..2.3", "1.2.3.4 ", "+1.2.3.4", "a.b.c.d", "1.2.3.1000"] {
        assert_eq!(parse_ipv4(bad), None, "{bad}");
    }
}

#[test]
fn invalid_address_error() {
    assert_eq!(parse_ip("192.168.1.1").unwrap(), 0xc0a80101);
    match parse_ip("10.0.2") {
        Err(LiteDroidError::NetworkInterfaceFailed(m)) => assert_eq!(m, "invalid IP: 10.0.2"),
        other => panic!("unexpected {other:?}"),
    }
}

#[test]
fn interface_names_fit_ifreq() {
    let b = ifname_bytes("litedroid-tap0");
    assert_eq!(&b[..14], b"litedroid-tap0");
    assert_eq!(&b[14..], &[0, 0]);
    let long = ifname_bytes("abcdefghijklmnopqrst");
    assert_eq!(&long[..15], b"abcdefghijklmno");
    assert_eq!(long[15], 0);
    assert_eq!(ifname_from_bytes(&b), b"litedroid-tap0".to_vec());
    assert_eq!(ifname_from_bytes(b"abc"), b"abc".to_vec());
    assert_eq!(ifname_from_bytes(&long), b"abcdefghijklmno".to_vec());
    assert_eq!(ifname_from_bytes(&ifname_bytes("")), Vec::<u8>::new());
}

const ROUTES: &str = "Iface\tDestination\tGateway \tFlags\nwlan0\t0010A8C0\t00000000\t0001\neth0\t00000000\t0101A8C0\t0003\r\nbr0\t00000000\t0\n";

#[test]
fn default_route_interface() {
    assert_eq!(find_default_route(ROUTES), Some("eth0".to_string()));
    assert_eq!(find_default_route("Iface\tDestination\n00000000\t00000000\n"), Some("00000000".to_string()));
    assert_eq!(find_default_route("eth0 00000000"), None);
    assert_eq!(find_default_route("hdr\nlo\t0000007F\n"), None);
    assert_eq!(host_interface_from(&Ok(ROUTES.to_string())).unwrap(), "eth0");
    match host_interface_from(&Ok("hdr\n".to_string())) {
        Err(LiteDroidError::NatSetupFailed(m)) => assert_eq!(m, "no default route found in /proc/net/route"),
        other => panic!("unexpected {other:?}"),
    }
    match host_interface_from(&Err("denied".to_string())) {
        Err(LiteDroidError::NatSetupFailed(m)) => assert_eq!(m, "read /proc/net/route: denied"),
        other => panic!("unexpected {other:?}"),
    }
}

#[test]
fn virtio_net_registers() {
    let mut dev = VirtioNetDevice::new((), [0x52, 0x54, 0x00, 0x12, 0x34, 0x56]);
    assert_eq!(dev.name(), "virtio-net");
    assert_eq!(dev.device_type(), "net");
    assert_eq!(dev.device_tree_compatible(), "virtio,net");
    assert_eq!(dev.mmio_read(0x00, 4), 0x74726976);
    assert_eq!(dev.mmio_read(0x08, 4), 1);
    assert_eq!(dev.mmio_read(0x24, 4), 1);
    assert_eq!(dev.mmio_read(0x100, 8), 0x525400123456);
    dev.mmio_write(0x30, 4, 0x1_0000_0007);
    assert_eq!(dev.mmio_read(0x30, 4), 7);
    dev.mmio_write(0x28, 4, 1);
    assert_eq!(dev.mmio_read(0x30, 4), 7);
    dev.reset();
    assert_eq!(dev.mmio_read(0x30, 4), 0);
}

#[test]
fn daemon_methods() {
    assert_eq!(classify_method("daemon.ping"), MethodKind::Ping);
    assert_eq!(classify_method("daemon.status"), MethodKind::Status);
    assert_eq!(classify_method("daemon.shutdown"), MethodKind::Shutdown);
    assert_eq!(classify_method("device.start"), MethodKind::DeviceStart);
    assert_eq!(classify_method("device.stop"), MethodKind::DeviceStop);
    assert_eq!(classify_method("device.status"), MethodKind::DeviceStatus);
    assert_eq!(classify_method("vm.stats"), MethodKind::VmStats);
    assert_eq!(classify_method("device.pause"), MethodKind::Refused);
    assert_eq!(refusal("device.restart"), "VM not running");
    assert_eq!(refusal("device.pause"), "Pause is not implemented for the active VM");
    assert_eq!(refusal("device.resume"), "Resume is not implemented for the active VM");
    assert_eq!(refusal("device.screenshot"), "Device not running");
    assert_eq!(refusal("apk.list"), "ADB bridge not yet connected");
    assert_eq!(refusal("adb.logcat"), "ADB not yet connected");
    assert_eq!(refusal("snapshot.delete"), "No active VM");
    assert_eq!(refusal("ping"), "Unknown method: ping");
}

#[test]
fn device_start_helpers() {
    assert_eq!(requested_device(None), "default");
    assert_eq!(requested_device(Some("Pixel")), "Pixel");
    assert_eq!(avd_name(34), "LiteDroid-API34");
    assert_eq!(already_running(), "Android emulator is already running");
    assert_eq!(start_failure(&StartStep::LoadConfiguration, "bad toml"), "Cannot load configuration: bad toml");
    assert_eq!(
        start_failure(&StartStep::LoadDevice("p".to_string()), "missing"),
        "Cannot load device p: missing"
    );
    assert_eq!(start_failure(&StartStep::SpawnEmulator, "e"), "Cannot start Android emulator: e");
}

#[test]
fn emulator_power_states() {
    let mut st = DaemonState::new();
    assert_eq!(st.power_state, "off");
    st.started("default".to_string());
    assert_eq!((st.active_device.clone(), st.power_state.clone()), (Some("default".to_string()), "booting".to_string()));
    assert_eq!(st.observe(&EmulatorObservation::Running { adb_output: Some("offline\n".to_string()) }), "booting");
    assert_eq!(st.observe(&EmulatorObservation::Running { adb_output: Some("device\n".to_string()) }), "running");
    assert_eq!(st.observe(&EmulatorObservation::Absent), "running");
    assert_eq!(st.observe(&EmulatorObservation::Exited { success: false }), "error");
    assert_eq!(st.active_device, None);
    st.started("x".to_string());
    assert_eq!(st.observe(&EmulatorObservation::Unknown), "error");
    assert_eq!(st.active_device, Some("x".to_string()));
    assert_eq!(st.observe(&EmulatorObservation::Exited { success: true }), "off");
    st.started("y".to_string());
    st.stopped();
    assert_eq!((st.active_device.clone(), st.power_state.as_str()), (None, "off"));
    st.shutting_down();
    assert_eq!(st.power_state, "stopping");
}

#[test]
fn sdk_layout() {
    assert_eq!(sdk_root(Some("/sdk".to_string()), Some("/home".to_string()), "/d"), "/sdk");
    assert_eq!(sdk_root(None, Some("/home".to_string()), "/d"), "/home");
    assert_eq!(sdk_root(None, None, "/d/"), "/d/android-sdk");
    let t = android_tool_paths("/sdk");
    assert_eq!(t.emulator, "/sdk/emulator/emulator");
    assert_eq!(t.adb, "/sdk/platform-tools/adb");
    assert_eq!(t.avdmanager, "/sdk/cmdline-tools/latest/bin/avdmanager");
    assert_eq!(
        missing_tools_message("/sdk"),
        "Android Emulator tools are not installed under /sdk. Run scripts/linux/setup.sh first."
    );
}

#[test]
fn nat_rules_add_and_remove() {
    let add = nat_rules(false, "wlan0", "tap0");
    assert_eq!(
        add,
        vec![
            vec!["-t", "nat", "-A", "POSTROUTING", "-o", "wlan0", "-s", "10.0.2.0/24", "-j", "MASQUERADE"],
            vec!["-I", "FORWARD", "-i", "tap0", "-j", "ACCEPT"],
            vec!["-I", "FORWARD", "-o", "tap0", "-j", "ACCEPT"],
        ]
    );
    let del = nat_rules(true, "eth0", "tap1");
    assert_eq!(del[0][2], "-D");
    assert_eq!(del[1], vec!["-D", "FORWARD", "-i", "tap1", "-j", "ACCEPT"]);
    assert_eq!(nat_interface(Ok("br0".to_string())), "br0");
    assert_eq!(nat_interface(Err(LiteDroidError::NatSetupFailed("x".to_string()))), "eth0");
}
