use std::sync::{Arc, Mutex};

use litedroid::error::LiteDroidError;
use litedroid::memory::GuestMemory;
use litedroid::regs::{DescriptorTable, Registers, Segment, SystemRegisters};
use litedroid::storage::BlockBackend;
use litedroid::vmm::{
    build_boot_params, build_gdt_32bit, load_kernel_image, long_mode_entry_registers,
    long_mode_system_registers, make_flat_data_segment, mmio_value, protected_mode_entry_registers,
    protected_mode_system_registers, read_u32, serial_text, stops_guest, write_gdt_64bit,
    write_page_tables, LoadedKernel, RunEvent,
};
use litedroid::vring::{
    align_up, disk_range, disk_write_status, guest_u16, guest_u32, guest_u64, place_disk_read, RequestPlan, VirtioBlock,
};

fn le16(m: &GuestMemory, a: u64) -> u16 {
    guest_u16(m, a).unwrap()
}

#[test]
fn guest_memory_rejects_zero_size() {
    match GuestMemory::new(0) {
        Err(LiteDroidError::MemoryAllocationFailed { requested_mb, available_mb }) => {
            assert_eq!(requested_mb, 0);
            assert_eq!(available_mb, 0);
        }
        _ => panic!("a zero-sized region must be refused"),
    }
}

#[test]
fn guest_memory_starts_zeroed() {
    let m = GuestMemory::new(4096).unwrap();
    assert_eq!(m.size(), 4096);
    assert!(m.host_bytes().iter().all(|&b| b == 0));
}

#[test]
fn read_after_write_returns_written_bytes() {
    let mut m = GuestMemory::new(64).unwrap();
    m.write_guest(10, &[1, 2, 3, 4]).unwrap();
    let mut buf = [0u8; 4];
    m.read_guest(10, &mut buf).unwrap();
    assert_eq!(buf, [1, 2, 3, 4]);
    let mut around = [9u8; 2];
    m.read_guest(8, &mut around).unwrap();
    assert_eq!(around, [0, 0]);
}

#[test]
fn out_of_range_access_is_refused_and_harmless() {
    let mut m = GuestMemory::new(16).unwrap();
    assert_eq!(
        m.write_guest(14, &[1, 2, 3]),
        Err(LiteDroidError::GuestAddressOutOfRange { address: 14 })
    );
    assert!(m.host_bytes().iter().all(|&b| b == 0));
    let mut buf = [7u8; 4];
    assert_eq!(
        m.read_guest(u64::MAX - 1, &mut buf),
        Err(LiteDroidError::GuestAddressOutOfRange { address: u64::MAX - 1 })
    );
    assert_eq!(buf, [7u8; 4]);
    assert!(m.read_guest(12, &mut buf).is_ok());
    assert!(m.load_blob(16, &[]).is_ok());
}

#[test]
fn guest_integers_are_little_endian() {
    let mut m = GuestMemory::new(32).unwrap();
    m.write_guest(0, &[0x01, 0x02, 0x03, 0x04, 0x05, 0x06, 0x07, 0x08]).unwrap();
    assert_eq!(guest_u16(&m, 0).unwrap(), 0x0201);
    assert_eq!(guest_u32(&m, 0).unwrap(), 0x04030201);
    assert_eq!(guest_u64(&m, 0).unwrap(), 0x0807060504030201);
    assert_eq!(guest_u64(&m, 30), Err(LiteDroidError::GuestAddressOutOfRange { address: 30 }));
}

#[test]
fn align_up_rounds_to_pages() {
    assert_eq!(align_up(0, 4096), 0);
    assert_eq!(align_up(1, 4096), 4096);
    assert_eq!(align_up(4096, 4096), 4096);
    assert_eq!(align_up(4097, 4096), 8192);
}

#[test]
fn flat_kernel_is_loaded_whole() {
    let mut m = GuestMemory::new(0x200000).unwrap();
    let image = vec![0xAAu8; 300];
    assert_eq!(load_kernel_image(&mut m, &image).unwrap(), LoadedKernel::Flat);
    let mut buf = vec![0u8; 300];
    m.read_guest(0x100000, &mut buf).unwrap();
    assert_eq!(buf, image);
}

#[test]
fn flat_kernel_too_large_is_refused() {
    let mut m = GuestMemory::new(0x100010).unwrap();
    assert_eq!(
        load_kernel_image(&mut m, &[1u8; 32]),
        Err(LiteDroidError::GuestAddressOutOfRange { address: 0x100000 })
    );
}

fn bzimage(setup_sects: u8, payload: &[u8]) -> Vec<u8> {
    let setup = (setup_sects as usize + 1) * 512;
    let mut d = vec![0u8; setup];
    d[0x1f1] = setup_sects;
    d[0x202..0x206].copy_from_slice(b"HdrS");
    d[0x248..0x24c].copy_from_slice(&0x300u32.to_le_bytes());
    d[0x24c..0x250].copy_from_slice(&0x1234u32.to_le_bytes());
    d.extend_from_slice(payload);
    d
}

#[test]
fn bzimage_setup_and_payload_are_placed() {
    let mut m = GuestMemory::new(0x200000).unwrap();
    let image = bzimage(1, &[5, 6, 7, 8]);
    let loaded = load_kernel_image(&mut m, &image).unwrap();
    match loaded {
        LoadedKernel::BzImage { header } => assert_eq!(header, image[0x1f1..0x290].to_vec()),
        LoadedKernel::Flat => panic!("the signature was not recognised"),
    }
    let mut setup = vec![0u8; 1024];
    m.read_guest(0x10000, &mut setup).unwrap();
    assert_eq!(setup, image[..1024].to_vec());
    let mut payload = [0u8; 4];
    m.read_guest(0x100000, &mut payload).unwrap();
    assert_eq!(payload, [5, 6, 7, 8]);
}

#[test]
fn bzimage_without_payload_is_refused() {
    let mut m = GuestMemory::new(0x200000).unwrap();
    let image = bzimage(1, &[]);
    match load_kernel_image(&mut m, &image) {
        Err(LiteDroidError::KernelLoadFailed(msg)) => assert_eq!(
            msg,
            "invalid bzImage payload range: setup=0x400, header offset=0x300, length=0x1234"
        ),
        other => panic!("unexpected {other:?}"),
    }
    assert!(m.host_bytes().iter().all(|&b| b == 0));
}

#[test]
fn header_field_reads() {
    let d = [1u8, 0, 0, 0, 2];
    assert_eq!(read_u32(&d, 0).unwrap(), 1);
    match read_u32(&d, 0x248) {
        Err(LiteDroidError::KernelLoadFailed(msg)) => {
            assert_eq!(msg, "bzImage header is missing field at 0x248")
        }
        other => panic!("unexpected {other:?}"),
    }
}

#[test]
fn boot_params_fields() {
    let header = vec![0x11u8; 0x9f];
    let p = build_boot_params(&header, 12, 0x5000);
    assert_eq!(p.len(), 0x1000);
    assert_eq!(&p[0x1f1..0x210], &header[..0x1f]);
    assert_eq!(&p[0x228..0x22c], &0x20000u32.to_le_bytes());
    assert_eq!(&p[0x238..0x23c], &12u32.to_le_bytes());
    assert_eq!(&p[0x218..0x21c], &0x8000000u32.to_le_bytes());
    assert_eq!(&p[0x21c..0x220], &0x5000u32.to_le_bytes());
    assert_eq!(&p[0x224..0x226], &0x7fffu16.to_le_bytes());
    assert_eq!(p[0x210], 0xff);
    assert_eq!(p[0x211], 0x11 | 0x80);
    assert_eq!(p[0], 0);
    assert_eq!(p[0x290], 0);
}

#[test]
fn protected_mode_gdt() {
    let g = build_gdt_32bit();
    assert_eq!(g.len(), 32);
    assert_eq!(&g[0..0x10], &[0u8; 16]);
    assert_eq!(&g[0x10..0x18], &0x00cf9a000000ffffu64.to_le_bytes());
    assert_eq!(&g[0x18..0x20], &0x00cf92000000ffffu64.to_le_bytes());
}

#[test]
fn long_mode_gdt_and_page_tables() {
    let mut m = GuestMemory::new(0x100000).unwrap();
    write_gdt_64bit(&mut m).unwrap();
    assert_eq!(guest_u64(&m, 0x80000).unwrap(), 0);
    assert_eq!(guest_u64(&m, 0x80008).unwrap(), 0);
    assert_eq!(guest_u64(&m, 0x80010).unwrap(), 0x00af9b0000000000);
    assert_eq!(guest_u64(&m, 0x80018).unwrap(), 0x00cf93000000ffff);
    // 5 MiB rounds up to three large pages.
    write_page_tables(&mut m, 5 * 1024 * 1024).unwrap();
    assert_eq!(guest_u64(&m, 0x70000).unwrap(), 0x71003);
    assert_eq!(guest_u64(&m, 0x71000).unwrap(), 0x72003);
    assert_eq!(guest_u64(&m, 0x72000).unwrap(), 0x83);
    assert_eq!(guest_u64(&m, 0x72008).unwrap(), 0x200083);
    assert_eq!(guest_u64(&m, 0x72010).unwrap(), 0x400083);
    assert_eq!(guest_u64(&m, 0x72018).unwrap(), 0);
}

#[test]
fn page_directory_is_capped_at_one_table() {
    let mut m = GuestMemory::new(0x100000).unwrap();
    write_page_tables(&mut m, 8192 * 1024 * 1024).unwrap();
    assert_eq!(guest_u64(&m, 0x72000 + 511 * 8).unwrap(), (511u64 << 21) | 0x83);
    assert_eq!(guest_u64(&m, 0x72000 + 512 * 8).unwrap(), 0);
}

fn zero_segment() -> Segment {
    Segment {
        base: 7,
        limit: 7,
        selector: 7,
        type_: 7,
        present: 0,
        dpl: 3,
        db: 0,
        s: 0,
        l: 0,
        g: 0,
        avl: 1,
        unusable: 1,
        padding: 0,
    }
}

fn sample_sregs() -> SystemRegisters {
    SystemRegisters {
        cs: zero_segment(),
        ds: zero_segment(),
        es: zero_segment(),
        fs: zero_segment(),
        gs: zero_segment(),
        ss: zero_segment(),
        tr: zero_segment(),
        ldt: zero_segment(),
        gdt: DescriptorTable { base: 1, limit: 2, padding: [0; 3] },
        idt: DescriptorTable { base: 3, limit: 4, padding: [0; 3] },
        cr0: 9,
        cr2: 9,
        cr3: 9,
        cr4: 9,
        cr8: 9,
        efer: 9,
        apic_base: 0xfee00900,
        interrupt_bitmap: [0; 4],
    }
}

#[test]
fn long_mode_system_register_plan() {
    let s = long_mode_system_registers(sample_sregs());
    assert_eq!((s.cr0, s.cr3, s.cr4, s.efer), (0x80000011, 0x70000, 0x20, 0x500));
    assert_eq!((s.gdt.base, s.gdt.limit), (0x80000, 31));
    assert_eq!((s.cs.selector, s.cs.type_, s.cs.l, s.cs.db, s.cs.limit), (0x10, 0xb, 1, 0, 0xfffff));
    assert_eq!(s.ds, make_flat_data_segment(0x18));
    assert_eq!(s.ss, make_flat_data_segment(0x18));
    assert_eq!(s.tr, zero_segment());
    assert_eq!(s.apic_base, 0xfee00900);
    let d = make_flat_data_segment(0x18);
    assert_eq!((d.type_, d.present, d.db, d.s, d.g, d.limit), (3, 1, 1, 1, 1, 0xfffff));
}

#[test]
fn protected_mode_system_register_plan() {
    let s = protected_mode_system_registers(sample_sregs());
    assert_eq!((s.cr0, s.cr3, s.cr4, s.efer), (0x11, 0, 0, 0));
    assert_eq!((s.cs.selector, s.cs.type_, s.cs.limit, s.cs.db, s.cs.l), (0x10, 0xa, 0xffffffff, 1, 0));
    assert_eq!((s.ds.selector, s.ds.type_), (0x18, 0x2));
    assert_eq!(s.es, s.ds);
    assert_eq!(s.gs, s.ds);
    assert_eq!(s.idt.base, 3);
}

fn sample_regs() -> Registers {
    Registers {
        rax: 1, rbx: 2, rcx: 3, rdx: 4, rsi: 5, rdi: 6, rsp: 7, rbp: 8, r8: 9, r9: 10, r10: 11,
        r11: 12, r12: 13, r13: 14, r14: 15, r15: 16, rip: 17, rflags: 18,
    }
}

#[test]
fn entry_register_plans() {
    let l = long_mode_entry_registers(sample_regs());
    assert_eq!((l.rip, l.rsi, l.rsp, l.rax, l.r15), (0x100000, 0x8000000, 0x800000, 1, 16));
    let p = protected_mode_entry_registers(sample_regs());
    assert_eq!((p.rax, p.rbx, p.rcx, p.rdx, p.rdi, p.rbp), (0, 0, 0, 0, 0, 0));
    assert_eq!((p.rsi, p.rip, p.rsp, p.rflags, p.r8), (0x90000, 0x100000, 0x10000, 2, 9));
}

#[test]
fn serial_bytes_are_rendered() {
    assert_eq!(serial_text(b'A'), "A");
    assert_eq!(serial_text(10), "<LF>");
    assert_eq!(serial_text(13), "<CR>");
    assert_eq!(serial_text(0x1b), "<0x1b>");
    assert_eq!(serial_text(0xff), "<0xff>");
}

#[test]
fn mmio_values_are_little_endian() {
    assert_eq!(mmio_value(&[0x01, 0x02]), 0x0201);
    assert_eq!(mmio_value(&[]), 0);
    assert_eq!(mmio_value(&[1, 0, 0, 0, 0, 0, 0, 0, 9]), 1);
}

#[test]
fn halting_events_end_the_run() {
    assert!(stops_guest(&RunEvent::Halted));
    assert!(stops_guest(&RunEvent::Exception));
    assert!(stops_guest(&RunEvent::InternalError));
    assert!(stops_guest(&RunEvent::FailEntry { hardware_entry_failure_reason: 3 }));
    assert!(stops_guest(&RunEvent::RunFailed(LiteDroidError::KvmIoctl("x".into()))));
    assert!(!stops_guest(&RunEvent::SerialOutput(vec![1])));
    assert!(!stops_guest(&RunEvent::Unknown));
    assert!(!stops_guest(&RunEvent::IoIn { port: 0x60 }));
}

struct MemDisk {
    bytes: Arc<Mutex<Vec<u8>>>,
}

impl BlockBackend for MemDisk {
    fn read_at(&self, offset: u64, len: usize) -> Result<Vec<u8>, LiteDroidError> {
        let b = self.bytes.lock().unwrap();
        let start = (offset as usize).min(b.len());
        let end = (start + len).min(b.len());
        Ok(b[start..end].to_vec())
    }
    fn write_at(&self, offset: u64, data: &[u8]) -> Result<usize, LiteDroidError> {
        let mut b = self.bytes.lock().unwrap();
        let start = offset as usize;
        if b.len() < start + data.len() {
            b.resize(start + data.len(), 0);
        }
        b[start..start + data.len()].copy_from_slice(data);
        Ok(data.len())
    }
    fn size(&self) -> u64 {
        self.bytes.lock().unwrap().len() as u64
    }
}

fn disk() -> Box<MemDisk> {
    let mut bytes = vec![0u8; 4096];
    for (i, b) in bytes.iter_mut().enumerate() {
        *b = (i / 512) as u8 + 1;
    }
    Box::new(MemDisk { bytes: Arc::new(Mutex::new(bytes)) })
}

const QUEUE: u64 = 0x1000; // page frame 1

fn put(m: &mut GuestMemory, a: u64, b: &[u8]) {
    m.write_guest(a, b).unwrap();
}

/// Lay out one request chain (header, data, status) starting at descriptor 1
/// and make it available. The device reads the available ring's index at
/// `queue + 2` and its entries from `queue + 4`.
fn post_request(m: &mut GuestMemory, req_type: u32, sector: u64, data_flags: u16) {
    let hdr = 0x8000u64;
    let data = 0x9000u64;
    let status = 0xa000u64;
    put(m, hdr, &req_type.to_le_bytes());
    put(m, hdr + 8, &sector.to_le_bytes());
    // descriptor 1: header -> 2
    put(m, QUEUE + 16, &hdr.to_le_bytes());
    put(m, QUEUE + 24, &16u32.to_le_bytes());
    put(m, QUEUE + 28, &1u16.to_le_bytes());
    put(m, QUEUE + 30, &2u16.to_le_bytes());
    // descriptor 2: data -> 3
    put(m, QUEUE + 32, &data.to_le_bytes());
    put(m, QUEUE + 40, &512u32.to_le_bytes());
    put(m, QUEUE + 44, &(1u16 | data_flags).to_le_bytes());
    put(m, QUEUE + 46, &3u16.to_le_bytes());
    // descriptor 3: status
    put(m, QUEUE + 48, &status.to_le_bytes());
    // available entry 0 names descriptor 1; one entry is available
    put(m, QUEUE + 4, &1u16.to_le_bytes());
    put(m, QUEUE + 2, &1u16.to_le_bytes());
}

fn configured_block(m: &mut GuestMemory) -> VirtioBlock {
    let mut blk = VirtioBlock::new(disk());
    blk.write(0x38, 4, 8, m).unwrap();
    blk.write(0x40, 4, QUEUE >> 12, m).unwrap();
    blk
}

#[test]
fn block_registers_read_back() {
    let mut m = GuestMemory::new(0x10000).unwrap();
    let mut blk = VirtioBlock::new(disk());
    assert_eq!(blk.read(0x00, 4), 0x74726976);
    assert_eq!(blk.read(0x04, 4), 2);
    assert_eq!(blk.read(0x08, 4), 2);
    assert_eq!(blk.read(0x34, 4), 128);
    assert_eq!(blk.read(0x3c, 4), 4096);
    assert_eq!(blk.read(0x100, 8), 8);
    assert_eq!(blk.read(0x00, 1), 0x76);
    blk.write(0x38, 4, 300, &mut m).unwrap();
    assert_eq!(blk.read(0x38, 4), 128);
    blk.write(0x38, 4, 16, &mut m).unwrap();
    assert_eq!(blk.read(0x38, 2), 16);
    blk.write(0x60, 4, 0x1_0000_000f, &mut m).unwrap();
    assert_eq!(blk.read(0x60, 4), 0xf);
    blk.write(0x40, 4, 5, &mut m).unwrap();
    assert_eq!(blk.read(0x40, 4), 5);
    assert_eq!(blk.read(0x999, 4), 0);
}

#[test]
fn read_request_fills_guest_buffer_and_used_ring() {
    let mut m = GuestMemory::new(0x10000).unwrap();
    let mut blk = configured_block(&mut m);
    post_request(&mut m, 0, 2, 2);
    blk.write(0x50, 4, 0, &mut m).unwrap();
    let mut data = vec![0u8; 512];
    m.read_guest(0x9000, &mut data).unwrap();
    assert!(data.iter().all(|&b| b == 3), "sector 2 holds 3s");
    let mut status = [9u8];
    m.read_guest(0xa000, &mut status).unwrap();
    assert_eq!(status, [0]);
    // used ring: after 8 descriptors, avail ring, aligned to the next page
    let used = align_up(QUEUE + 16 * 8 + 4 + 2 * 8, 4096);
    assert_eq!(le16(&m, used + 2), 1);
    assert_eq!(guest_u32(&m, used + 4).unwrap(), 1);
    assert_eq!(guest_u32(&m, used + 8).unwrap(), 512);
    // a second notification finds nothing new
    blk.write(0x50, 4, 0, &mut m).unwrap();
    assert_eq!(le16(&m, used + 2), 1);
}

#[test]
fn write_request_reaches_the_disk() {
    let mut m = GuestMemory::new(0x10000).unwrap();
    let backing = disk();
    let shared = Arc::clone(&backing.bytes);
    let mut blk = VirtioBlock::new(backing);
    blk.write(0x38, 4, 8, &mut m).unwrap();
    blk.write(0x40, 4, QUEUE >> 12, &mut m).unwrap();
    post_request(&mut m, 1, 1, 0);
    put(&mut m, 0x9000, &[0x5a; 512]);
    blk.write(0x50, 4, 0, &mut m).unwrap();
    let bytes = shared.lock().unwrap();
    assert!(bytes[512..1024].iter().all(|&b| b == 0x5a));
    assert!(bytes[1024..1536].iter().all(|&b| b == 3));
}

#[test]
fn unsupported_request_reports_status_one() {
    let mut m = GuestMemory::new(0x10000).unwrap();
    let mut blk = configured_block(&mut m);
    post_request(&mut m, 4, 0, 2);
    blk.write(0x50, 4, 0, &mut m).unwrap();
    let mut status = [9u8];
    m.read_guest(0xa000, &mut status).unwrap();
    assert_eq!(status, [1]);
}

fn disk_error(r: Result<(), LiteDroidError>) -> String {
    match r {
        Err(LiteDroidError::DiskIo(m)) => m,
        other => panic!("unexpected {other:?}"),
    }
}

#[test]
fn malformed_requests_are_refused() {
    let mut m = GuestMemory::new(0x10000).unwrap();
    let mut blk = configured_block(&mut m);
    post_request(&mut m, 0, 0, 0);
    assert_eq!(disk_error(blk.write(0x50, 4, 0, &mut m)), "virtio read buffer is not writable");

    let mut m = GuestMemory::new(0x10000).unwrap();
    let mut blk = configured_block(&mut m);
    post_request(&mut m, 1, 0, 2);
    assert_eq!(disk_error(blk.write(0x50, 4, 0, &mut m)), "virtio write buffer is not readable");

    let mut m = GuestMemory::new(0x10000).unwrap();
    let mut blk = configured_block(&mut m);
    post_request(&mut m, 0, 0, 2);
    put(&mut m, QUEUE + 28, &0u16.to_le_bytes());
    assert_eq!(disk_error(blk.write(0x50, 4, 0, &mut m)), "virtio request has no data descriptor");

    let mut m = GuestMemory::new(0x10000).unwrap();
    let mut blk = configured_block(&mut m);
    post_request(&mut m, 0, 0, 2);
    put(&mut m, QUEUE + 46, &9u16.to_le_bytes());
    assert_eq!(disk_error(blk.write(0x50, 4, 0, &mut m)), "virtio request has invalid status descriptor");

    let mut m = GuestMemory::new(0x10000).unwrap();
    let mut blk = configured_block(&mut m);
    post_request(&mut m, 0, 0, 2);
    put(&mut m, QUEUE + 48, &0u64.to_le_bytes());
    assert_eq!(disk_error(blk.write(0x50, 4, 0, &mut m)), "virtio status address is null");

    let mut m = GuestMemory::new(0x10000).unwrap();
    let mut blk = configured_block(&mut m);
    post_request(&mut m, 0, 0, 2);
    put(&mut m, QUEUE + 16, &0xfffff000u64.to_le_bytes());
    assert_eq!(
        blk.write(0x50, 4, 0, &mut m),
        Err(LiteDroidError::GuestAddressOutOfRange { address: 0xfffff000 })
    );
}

#[test]
fn zero_sized_queue_cannot_be_served() {
    let mut m = GuestMemory::new(0x10000).unwrap();
    let mut blk = configured_block(&mut m);
    blk.write(0x38, 4, 0, &mut m).unwrap();
    post_request(&mut m, 0, 0, 2);
    assert_eq!(disk_error(blk.write(0x50, 4, 0, &mut m)), "virtio queue size is zero");
}

#[test]
fn queue_notification_needs_a_placed_queue() {
    let mut m = GuestMemory::new(0x10000).unwrap();
    let mut blk = VirtioBlock::new(disk());
    post_request(&mut m, 0, 0, 2);
    assert!(blk.write(0x50, 4, 0, &mut m).is_ok());
    assert_eq!(m.host_bytes()[0xa000], 0);
}

fn read_plan(len: u32) -> RequestPlan {
    RequestPlan { request_type: 0, sector: 3, payload_addr: 0x2000, payload_len: len, payload_flags: 3, status_addr: 0xa000 }
}

#[test]
fn disk_range_is_sector_times_512() {
    assert_eq!(disk_range(&read_plan(1024)), Ok((1536, 1024)));
    let mut far = read_plan(8);
    far.sector = u64::MAX / 256;
    match disk_range(&far) {
        Err(LiteDroidError::DiskIo(m)) => assert_eq!(m, "virtio request sector is out of range"),
        other => panic!("unexpected {other:?}"),
    }
}

#[test]
fn disk_read_results_are_placed_or_passed_on() {
    let mut m = GuestMemory::new(0x10000).unwrap();
    assert_eq!(place_disk_read(&mut m, &read_plan(3), Ok(vec![7, 8, 9, 10])), Ok(0));
    let mut got = [0u8; 4];
    m.read_guest(0x2000, &mut got).unwrap();
    assert_eq!(got, [7, 8, 9, 0]);
    assert_eq!(place_disk_read(&mut m, &read_plan(8), Ok(vec![1])), Ok(0));
    m.read_guest(0x2000, &mut got).unwrap();
    assert_eq!(got, [1, 8, 9, 0]);
    let failed = place_disk_read(&mut m, &read_plan(3), Err(LiteDroidError::DiskIo("gone".to_string())));
    assert_eq!(failed, Err(LiteDroidError::DiskIo("gone".to_string())));
    let mut far = read_plan(4);
    far.payload_addr = 0xfffe;
    assert_eq!(
        place_disk_read(&mut m, &far, Ok(vec![1, 2, 3, 4])),
        Err(LiteDroidError::GuestAddressOutOfRange { address: 0xfffe })
    );
}

#[test]
fn disk_write_outcome_gives_status() {
    assert_eq!(disk_write_status(Ok(512)), Ok(0));
    assert_eq!(
        disk_write_status(Err(LiteDroidError::DiskIo("full".to_string()))),
        Err(LiteDroidError::DiskIo("full".to_string()))
    );
}
