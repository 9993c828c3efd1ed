use litedroid::adb::{checksum, header_payload_len, AdbConnection, AdbMessage, CMD_CLSE, CMD_CNXN, CMD_OKAY, CMD_OPEN, CMD_WRTE};
use litedroid::error::LiteDroidError;
use litedroid::ipc::{decode_frame, encode_frame, frame_payload_len};
use litedroid::text::{i32_to_decimal, u64_to_decimal, u64_to_hex};
use litedroid::wire::{get_be32, get_le16, get_le32, get_le64, u16_to_le, u32_to_be, u32_to_le, u64_to_le};

#[test]
fn checksum_sums_bytes() {
    assert_eq!(checksum(&[]), 0);
    assert_eq!(checksum(&[1, 2, 3, 250]), 256);
    assert_eq!(checksum(b"host::"), b"host::".iter().map(|&b| b as u32).sum::<u32>());
}

#[test]
fn adb_messages_round_trip() {
    let msgs = vec![
        AdbMessage::connect("device::litedroid", 4096),
        AdbMessage::open(7, "shell:ls"),
        AdbMessage::okay(1, 2),
        AdbMessage::close(3, 4),
        AdbMessage::write_msg(5, 6, b"payload bytes"),
    ];
    for m in msgs {
        let bytes = m.encode();
        assert_eq!(bytes.len(), 24 + m.data.len());
        let d = AdbMessage::decode(&bytes).unwrap();
        assert_eq!(d.command, m.command);
        assert_eq!((d.arg0, d.arg1, d.data_length, d.data_check), (m.arg0, m.arg1, m.data_length, m.data_check));
        assert_eq!(d.data, m.data);
        assert_eq!(header_payload_len(&bytes[..24]), m.data.len() as u32);
    }
}

#[test]
fn adb_constructors() {
    let c = AdbMessage::connect("host::", 4096);
    assert_eq!((c.command, c.arg0, c.arg1), (CMD_CNXN, 0x01000000, 4096));
    assert_eq!(c.data, b"host::".to_vec());
    assert_eq!(c.data_length, 6);
    let o = AdbMessage::open(9, "tcp:5555");
    assert_eq!((o.command, o.arg0, o.arg1), (CMD_OPEN, 9, 0));
    let ok = AdbMessage::okay(1, 2);
    assert_eq!((ok.command, ok.data_length, ok.data_check, ok.data.len()), (CMD_OKAY, 0, 0, 0));
    let w = AdbMessage::write_msg(1, 2, &[1, 2]);
    assert_eq!((w.command, w.data_length, w.data_check), (CMD_WRTE, 2, 3));
    let encoded = AdbMessage::okay(1, 2).encode();
    assert_eq!(&encoded[..4], b"OKAY");
    assert_eq!(&encoded[4..8], &1u32.to_le_bytes());
    assert_eq!(&encoded[20..24], &(u32::from_le_bytes(*b"OKAY") ^ 0xffffffff).to_le_bytes());
}

fn protocol_error(r: Result<AdbMessage, LiteDroidError>) -> String {
    match r {
        Err(LiteDroidError::AdbProtocolError(m)) => m,
        other => panic!("unexpected {other:?}"),
    }
}

#[test]
fn adb_decode_errors() {
    assert_eq!(protocol_error(AdbMessage::decode(&[0u8; 10])), "message too short");
    let mut bad_magic = AdbMessage::okay(1, 1).encode();
    bad_magic[20] ^= 1;
    assert_eq!(protocol_error(AdbMessage::decode(&bad_magic)), "invalid magic");
    let short = AdbMessage::write_msg(1, 1, b"abcd").encode();
    assert_eq!(protocol_error(AdbMessage::decode(&short[..26])), "incomplete payload");
    let mut corrupt = AdbMessage::write_msg(1, 1, b"abcd").encode();
    corrupt[25] ^= 0x40;
    assert_eq!(protocol_error(AdbMessage::decode(&corrupt)), "checksum mismatch");
}

#[test]
fn adb_session_answers() {
    let mut conn = AdbConnection::new();
    let g = AdbConnection::greeting();
    assert_eq!(g.data, b"device::litedroid".to_vec());
    let r = conn.on_message(&AdbMessage::connect("host::", 4096));
    assert_eq!(r.messages.len(), 1);
    assert!(!r.close);
    let v = conn.on_message(&AdbMessage::open(42, "host:version"));
    assert_eq!(v.messages.len(), 2);
    assert_eq!((v.messages[0].command, v.messages[0].arg0, v.messages[0].arg1), (CMD_OKAY, 1, 42));
    assert_eq!(v.messages[1].data, b"00040024".to_vec());
    let d = conn.on_message(&AdbMessage::open(43, "host:devices"));
    assert_eq!(d.messages[0].arg0, 2);
    assert_eq!(d.messages[1].data, b"LITEDROID001\tdevice".to_vec());
    let other = conn.on_message(&AdbMessage::open(44, "shell:"));
    assert_eq!(other.messages.len(), 1);
    assert_eq!(other.messages[0].arg0, 3);
    assert!(conn.on_message(&AdbMessage::okay(1, 1)).messages.is_empty());
    let k = conn.on_message(&AdbMessage::open(45, "host:kill"));
    assert_eq!((k.messages[0].command, k.close), (CMD_CLSE, true));
    let c = conn.on_message(&AdbMessage::close(1, 1));
    assert!(c.messages.is_empty() && c.close);
}

#[test]
fn ipc_frames_round_trip() {
    let f = encode_frame(b"{\"a\":1}");
    assert_eq!(&f[..4], &[0, 0, 0, 7]);
    assert_eq!(frame_payload_len(&[0, 0, 1, 2]), 258);
    let mut stream = f.clone();
    stream.extend_from_slice(&encode_frame(b"next"));
    assert_eq!(decode_frame(&stream), Some(b"{\"a\":1}".to_vec()));
    assert_eq!(decode_frame(&f[..5]), None);
    assert_eq!(decode_frame(&[0, 0]), None);
    assert_eq!(decode_frame(&encode_frame(b"")), Some(vec![]));
}

#[test]
fn integer_encodings() {
    assert_eq!(u32_to_le(0x01020304), [4, 3, 2, 1]);
    assert_eq!(u32_to_be(0x01020304), [1, 2, 3, 4]);
    assert_eq!(u16_to_le(0xabcd), [0xcd, 0xab]);
    assert_eq!(u64_to_le(0x0102030405060708), [8, 7, 6, 5, 4, 3, 2, 1]);
    let b = [1u8, 2, 3, 4, 5, 6, 7, 8];
    assert_eq!(get_le32(&b, 0), 0x04030201);
    assert_eq!(get_be32(&b, 0), 0x01020304);
    assert_eq!(get_le16(&b, 6), 0x0807);
    assert_eq!(get_le64(&b, 0), 0x0807060504030201);
}

#[test]
fn integer_encodings_roundtrip() {
    for v in [0u16, 1, 0x00ff, 0xff00, 0xffff] {
        assert_eq!(get_le16(&u16_to_le(v), 0), v);
    }
    for v in [0u32, 0x8000_0001, u32::MAX] {
        assert_eq!(get_le32(&u32_to_le(v), 0), v);
        assert_eq!(get_be32(&u32_to_be(v), 0), v);
    }
    for v in [0u64, 0x8000_0000_0000_0001, 0xdead_beef_0bad_f00d, u64::MAX] {
        assert_eq!(get_le64(&u64_to_le(v), 0), v);
    }
}

#[test]
fn number_rendering() {
    assert_eq!(u64_to_decimal(0), "0");
    assert_eq!(u64_to_decimal(18446744073709551615), "18446744073709551615");
    assert_eq!(i32_to_decimal(-42), "-42");
    assert_eq!(u64_to_hex(0), "0x0");
    assert_eq!(u64_to_hex(0xfffbd000), "0xfffbd000");
}

#[test]
fn number_rendering_edges() {
    assert_eq!(u64_to_decimal(9), "9");
    assert_eq!(u64_to_decimal(10), "10");
    assert_eq!(i32_to_decimal(i32::MIN), "-2147483648");
    assert_eq!(i32_to_decimal(0), "0");
    assert_eq!(u64_to_hex(u64::MAX), "0xffffffffffffffff");
    assert_eq!(u64_to_hex(0xabc), "0xabc");
}

#[test]
fn error_messages() {
    assert_eq!(LiteDroidError::DiskIo("short read".to_string()).to_string(), "Disk I/O error: short read");
    assert_eq!(
        LiteDroidError::GuestAddressOutOfRange { address: 0x1000 }.to_string(),
        "Guest address out of range: 0x1000"
    );
    assert_eq!(
        LiteDroidError::MemoryAllocationFailed { requested_mb: 4096, available_mb: 1024 }.to_string(),
        "Memory allocation failed: requested 4096MB, available 1024MB"
    );
    assert_eq!(
        LiteDroidError::VcpuCreationFailed { cpu_index: 3, reason: "busy".to_string() }.to_string(),
        "vCPU creation failed (cpu_index=3): busy"
    );
    assert_eq!(
        LiteDroidError::VcpuRunFailed { cpu_index: 0, reason: "EINTR".to_string() }.to_string(),
        "vCPU run failed (cpu_index=0): EINTR"
    );
    assert_eq!(
        LiteDroidError::AbiMismatch { required: "x86_64".to_string(), provided: "arm64-v8a".to_string() }.to_string(),
        "ABI mismatch: required=x86_64, provided=arm64-v8a"
    );
    assert_eq!(
        LiteDroidError::ApkLaunchFailed { package: "com.example".to_string(), reason: "no activity".to_string() }
            .to_string(),
        "APK launch failed (package=com.example): no activity"
    );
    assert_eq!(LiteDroidError::ConfigError("bad".to_string()).to_string(), "Configuration error: bad");
    assert_eq!(LiteDroidError::Unavailable("gpu".to_string()).to_string(), "Unavailable: gpu");
}
