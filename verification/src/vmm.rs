//! Virtual Machine Monitor: the boot layout of a guest (kernel image, boot
//! parameters, descriptor tables, page tables and initial registers) and the
//! machine that ties KVM, guest memory and the block device together.
use vstd::prelude::*;
use vstd::string::StrSliceExecFns;
use vstd::utf8::encode_utf8;

use crate::constants::{INITRAMFS_LOAD_ADDR, KERNEL_LOAD_ADDR, SERIAL_IO_BASE};
use crate::cpuid::filter_for_android;
use crate::device::{config_violation, DeviceConfig};
use crate::flag::RunFlag;
use crate::kvm::{Hypervisor, Vcpu, VcpuExitInfo, Vm};
use crate::storage::BlockBackend;
use crate::vring::{low_bytes, vblk_register, VirtioBlock};
use crate::error::{LiteDroidError, Result};
use crate::memory::{range_fits, GuestMemory};
use crate::regs::{Registers, Segment, SystemRegisters};
use crate::seqs::{copy_into_vec, copy_range, splice};
use crate::text::{hex, hex_digit_char, u64_to_hex};
use crate::constants::{VIRTIO_MMIO_SIZE, VIRTIO_MMIO_START};
use crate::wire::{get_le32, get_le64, le16, le32, le64, read_le32, read_le64, u16_to_le, u32_to_le, u64_to_le};

verus! {

/// Address of the top-level page-map level-4 table.
pub const PML4_ADDR: u64 = 0x70000;

/// Address of the page-directory-pointer table.
pub const PDPT_ADDR: u64 = 0x71000;

/// Address of the page directory (2 MB pages).
pub const PD_ADDR: u64 = 0x72000;

/// Address of the boot GDT.
pub const GDT_ADDR: u64 = 0x80000;

/// GDT selector of the code segment (entry 2 × 8).
pub const KERNEL_CODE_SEGMENT: u16 = 0x10;

/// GDT selector of the data segment (entry 3 × 8).
pub const KERNEL_DATA_SEGMENT: u16 = 0x18;

/// Initial RSP of a long-mode boot.
pub const BOOT_STACK_POINTER: u64 = 0x800000;

/// Linux x86 boot protocol zero page and command-line locations.
pub const BOOT_PARAMS_ADDR: u64 = 0x90000;

pub const CMDLINE_ADDR: u64 = 0x20000;

pub const BOOT_PARAMS_SIZE: usize = 0x1000;

/// Where the real-mode setup sectors of a bzImage are loaded.
pub const SETUP_LOAD_ADDR: u64 = 0x10000;

/// Size of a large page of the identity map.
pub const LARGE_PAGE_SIZE: u64 = 0x200000;

/// Flat 4 GiB 32-bit code and data descriptors (base 0, limit 0xfffff with
/// 4 KiB granularity).
pub const CODE_DESCRIPTOR_32: u64 = 0x00cf9a000000ffff;

pub const DATA_DESCRIPTOR_32: u64 = 0x00cf92000000ffff;

/// 64-bit code descriptor (L=1) and a read/write data descriptor.
pub const CODE_DESCRIPTOR_64: u64 = 0x00af9b0000000000;

pub const DATA_DESCRIPTOR_64: u64 = 0x00cf93000000ffff;

/// The boot-protocol header of a bzImage: bytes `0x1f1..0x290`.
pub const SETUP_HEADER_START: usize = 0x1f1;

pub const SETUP_HEADER_END: usize = 0x290;

/// `0x` followed by the lowercase hexadecimal digits of `n`.
pub open spec fn hex_text(n: nat) -> Seq<char> {
    seq!['0', 'x'] + hex(n)
}

/// Whether `d` carries the "HdrS" boot-protocol signature at 0x202.
pub open spec fn has_bzimage_signature(d: Seq<u8>) -> bool {
    &&& d.len() >= 0x206
    &&& d[0x202] == 0x48u8
    &&& d[0x203] == 0x64u8
    &&& d[0x204] == 0x72u8
    &&& d[0x205] == 0x53u8
}

/// Bytes of the real-mode part of a bzImage: its setup sectors and the boot
/// sector.
pub open spec fn setup_size(d: Seq<u8>) -> nat {
    ((d[0x1f1] + 1) * 512) as nat
}

/// Whether the setup part and the header's payload offset of bzImage `d`
/// leave a protected-mode payload to load.
pub open spec fn bzimage_layout_ok(d: Seq<u8>) -> bool {
    &&& setup_size(d) >= 0x200
    &&& read_le32(d, 0x248) >= 0x200
    &&& setup_size(d) < d.len()
}

/// Whether both parts of bzImage `d` fit in guest RAM of `size` bytes: the
/// setup sectors at `SETUP_LOAD_ADDR` and the payload at `KERNEL_LOAD_ADDR`.
pub open spec fn bzimage_fits(d: Seq<u8>, size: nat) -> bool {
    &&& range_fits(SETUP_LOAD_ADDR, setup_size(d), size)
    &&& range_fits(KERNEL_LOAD_ADDR, (d.len() - setup_size(d)) as nat, size)
}

/// The message that refuses the layout of bzImage `d`.
pub open spec fn bzimage_layout_message(d: Seq<u8>) -> Seq<char> {
    "invalid bzImage payload range: setup="@ + hex_text(setup_size(d)) + ", header offset="@ + hex_text(
        read_le32(d, 0x248) as nat,
    ) + ", length="@ + hex_text(read_le32(d, 0x24c) as nat)
}

/// The `u32` stored little-endian at `offset` of a bzImage header.
pub fn read_u32(data: &[u8], offset: usize) -> (r: Result<u32>)
    ensures
        offset + 4 <= data@.len() ==> r == Ok::<u32, LiteDroidError>(read_le32(data@, offset as int)),
        offset + 4 > data@.len() ==> (r matches Err(LiteDroidError::KernelLoadFailed(m)) && m@
            == "bzImage header is missing field at "@ + hex_text(offset as nat)),
{
    let n = data.len();
    if offset > n || n - offset < 4 {
        let m = String::from_str("bzImage header is missing field at ").concat(u64_to_hex(offset as u64).as_str());
        return Err(LiteDroidError::KernelLoadFailed(m));
    }
    Ok(get_le32(data, offset))
}

/// Store `value` little-endian at `offset` of `data`.
pub fn write_u16(data: &mut Vec<u8>, offset: usize, value: u16)
    requires
        offset + 2 <= old(data)@.len(),
    ensures
        final(data)@ == splice(old(data)@, offset as int, le16(value)),
{
    let b = u16_to_le(value);
    copy_into_vec(data, offset, b.as_slice(), 0, 2);
    assert(b@.subrange(0, 2) =~= b@);
}

/// Store `value` little-endian at `offset` of `data`.
pub fn write_u32(data: &mut Vec<u8>, offset: usize, value: u32)
    requires
        offset + 4 <= old(data)@.len(),
    ensures
        final(data)@ == splice(old(data)@, offset as int, le32(value)),
{
    let b = u32_to_le(value);
    copy_into_vec(data, offset, b.as_slice(), 0, 4);
    assert(b@.subrange(0, 4) =~= b@);
}

/// How the kernel image was recognised.
#[derive(Debug, Clone, PartialEq, Eq)]
pub enum LoadedKernel {
    /// A flat image, loaded whole at `KERNEL_LOAD_ADDR`.
    Flat,
    /// A bzImage: its boot-protocol header (`0x1f1..0x290`), which the boot
    /// parameters carry.
    BzImage { header: Vec<u8> },
}

/// Place the kernel image `data` in guest memory.
///
/// A bzImage ("HdrS" at 0x202) has its setup sectors loaded at 0x10000 and
/// its protected-mode payload at `KERNEL_LOAD_ADDR`, and its boot header is
/// kept; any other image is loaded whole at `KERNEL_LOAD_ADDR`.
pub fn load_kernel_image(memory: &mut GuestMemory, data: &[u8]) -> (r: Result<LoadedKernel>)
    requires
        has_bzimage_signature(data@) ==> data@.len() >= SETUP_HEADER_END,
    ensures
        final(memory)@.len() == old(memory)@.len(),
        !has_bzimage_signature(data@) ==> (r is Ok <==> range_fits(KERNEL_LOAD_ADDR, data@.len(), old(memory)@.len())),
        !has_bzimage_signature(data@) && r is Ok ==> (r == Ok::<LoadedKernel, LiteDroidError>(LoadedKernel::Flat)
            && final(memory)@ == splice(old(memory)@, KERNEL_LOAD_ADDR as int, data@)),
        !has_bzimage_signature(data@) && r is Err ==> (r == Err::<LoadedKernel, LiteDroidError>(
            LiteDroidError::GuestAddressOutOfRange { address: KERNEL_LOAD_ADDR },
        ) && final(memory)@ == old(memory)@),
        has_bzimage_signature(data@) && !bzimage_layout_ok(data@) ==> (r matches Err(
            LiteDroidError::KernelLoadFailed(m),
        ) && m@ == bzimage_layout_message(data@) && final(memory)@ == old(memory)@),
        has_bzimage_signature(data@) && r is Ok ==> bzimage_layout_ok(data@),
        has_bzimage_signature(data@) && bzimage_layout_ok(data@) ==> (r is Ok <==> bzimage_fits(
            data@,
            old(memory)@.len(),
        )),
        has_bzimage_signature(data@) && bzimage_layout_ok(data@) && !range_fits(
            SETUP_LOAD_ADDR,
            setup_size(data@),
            old(memory)@.len(),
        ) ==> (r == Err::<LoadedKernel, LiteDroidError>(
            LiteDroidError::GuestAddressOutOfRange { address: SETUP_LOAD_ADDR },
        ) && final(memory)@ == old(memory)@),
        has_bzimage_signature(data@) && bzimage_layout_ok(data@) && range_fits(
            SETUP_LOAD_ADDR,
            setup_size(data@),
            old(memory)@.len(),
        ) && !bzimage_fits(data@, old(memory)@.len()) ==> (r == Err::<LoadedKernel, LiteDroidError>(
            LiteDroidError::GuestAddressOutOfRange { address: KERNEL_LOAD_ADDR },
        ) && final(memory)@ == splice(old(memory)@, SETUP_LOAD_ADDR as int, data@.subrange(0, setup_size(data@) as int))),
        has_bzimage_signature(data@) && r is Ok ==> (r matches Ok(LoadedKernel::BzImage { header }) && header@ == data@.subrange(SETUP_HEADER_START as int, SETUP_HEADER_END as int) && final(memory)@
            == splice(
            splice(old(memory)@, SETUP_LOAD_ADDR as int, data@.subrange(0, setup_size(data@) as int)),
            KERNEL_LOAD_ADDR as int,
            data@.subrange(setup_size(data@) as int, data@.len() as int),
        )),
{
    let n = data.len();
    if n >= 0x206 && data[0x202] == 0x48u8 && data[0x203] == 0x64u8 && data[0x204] == 0x72u8 && data[0x205]
        == 0x53u8 {
        let setup_sects = data[0x1f1] as usize;
        let setup = (setup_sects + 1) * 512;
        let payload_offset = read_u32(data, 0x248)?;
        let payload_length = read_u32(data, 0x24c)?;
        if setup < 0x200 || payload_offset < 0x200 || setup >= n {
            let m = String::from_str("invalid bzImage payload range: setup=").concat(
                u64_to_hex(setup as u64).as_str(),
            ).concat(", header offset=").concat(u64_to_hex(payload_offset as u64).as_str()).concat(
                ", length=",
            ).concat(u64_to_hex(payload_length as u64).as_str());
            return Err(LiteDroidError::KernelLoadFailed(m));
        }
        let setup_part = copy_range(data, 0, setup);
        memory.load_blob(SETUP_LOAD_ADDR, setup_part.as_slice())?;
        let payload = copy_range(data, setup, n);
        memory.load_blob(KERNEL_LOAD_ADDR, payload.as_slice())?;
        let header = copy_range(data, SETUP_HEADER_START, SETUP_HEADER_END);
        return Ok(LoadedKernel::BzImage { header });
    }
    memory.load_blob(KERNEL_LOAD_ADDR, data)?;
    Ok(LoadedKernel::Flat)
}

/// The zero page handed to a bzImage: the kept boot header at 0x1f1, the
/// command line's address (0x228) and length (0x238), the initramfs's
/// address (0x218) and size (0x21c), the heap end (0x224, 0x7fff), a custom
/// boot loader type (0x210 = 0xff) and the CAN_USE_HEAP flag (bit 7 of
/// 0x211).
pub open spec fn boot_params_image(header: Seq<u8>, cmdline_len: nat, initramfs_size: u64) -> Seq<u8> {
    let zero = Seq::new(BOOT_PARAMS_SIZE as nat, |i: int| 0u8);
    let p0 = splice(zero, SETUP_HEADER_START as int, header);
    let p1 = splice(p0, 0x228, le32(CMDLINE_ADDR as u32));
    let p2 = splice(p1, 0x238, le32(cmdline_len as u32));
    let p3 = splice(p2, 0x218, le32(INITRAMFS_LOAD_ADDR as u32));
    let p4 = splice(p3, 0x21c, le32(initramfs_size as u32));
    let p5 = splice(p4, 0x224, le16(0x7fff));
    let p6 = p5.update(0x210, 0xff);
    p6.update(0x211, p6[0x211] | 0x80)
}

/// Build the zero page for a bzImage boot (see `boot_params_image`).
pub fn build_boot_params(header: &[u8], cmdline_len: usize, initramfs_size: u64) -> (v: Vec<u8>)
    requires
        header@.len() == SETUP_HEADER_END - SETUP_HEADER_START,
    ensures
        v@ == boot_params_image(header@, cmdline_len as nat, initramfs_size),
{
    let mut p = vec![0u8; BOOT_PARAMS_SIZE];
    assert(p@ =~= Seq::new(BOOT_PARAMS_SIZE as nat, |i: int| 0u8));
    copy_into_vec(&mut p, SETUP_HEADER_START, header, 0, SETUP_HEADER_END - SETUP_HEADER_START);
    assert(header@.subrange(0, header@.len() as int) =~= header@);
    write_u32(&mut p, 0x228, CMDLINE_ADDR as u32);
    write_u32(&mut p, 0x238, cmdline_len as u32);
    write_u32(&mut p, 0x218, INITRAMFS_LOAD_ADDR as u32);
    write_u32(&mut p, 0x21c, initramfs_size as u32);
    write_u16(&mut p, 0x224, 0x7fff);
    p.set(0x210, 0xff);
    let flags = p[0x211] | 0x80;
    p.set(0x211, flags);
    p
}

/// The 32-byte GDT of a bzImage boot: null entries but for the 32-bit code
/// descriptor at 0x10 and the data descriptor at 0x18.
pub open spec fn gdt_32bit_image() -> Seq<u8> {
    splice(
        splice(Seq::new(32, |i: int| 0u8), 0x10, le64(CODE_DESCRIPTOR_32)),
        0x18,
        le64(DATA_DESCRIPTOR_32),
    )
}

/// Build the GDT of a bzImage boot (see `gdt_32bit_image`).
pub fn build_gdt_32bit() -> (v: Vec<u8>)
    ensures
        v@ == gdt_32bit_image(),
{
    let mut gdt = vec![0u8; 32];
    assert(gdt@ =~= Seq::new(32, |i: int| 0u8));
    let code = u64_to_le(CODE_DESCRIPTOR_32);
    copy_into_vec(&mut gdt, 0x10, code.as_slice(), 0, 8);
    assert(code@.subrange(0, 8) =~= code@);
    let data = u64_to_le(DATA_DESCRIPTOR_32);
    copy_into_vec(&mut gdt, 0x18, data.as_slice(), 0, 8);
    assert(data@.subrange(0, 8) =~= data@);
    gdt
}

/// The page-directory entry that maps large page `i` onto itself: present,
/// writable, 2 MB page.
pub open spec fn pd_entry(i: nat) -> u64 {
    ((i * LARGE_PAGE_SIZE) as u64) | 0x83
}

/// `m` with the first `count` page-directory entries written.
pub open spec fn with_pd_entries(m: Seq<u8>, count: nat) -> Seq<u8>
    decreases count,
{
    if count == 0 {
        m
    } else {
        splice(
            with_pd_entries(m, (count - 1) as nat),
            PD_ADDR + 8 * (count - 1),
            le64(pd_entry((count - 1) as nat)),
        )
    }
}

/// Number of page-directory entries that identity-map `mem_size` bytes:
/// one per started large page, at most one directory (512 entries).
pub open spec fn pd_entry_count(mem_size: u64) -> nat {
    let pages = ((mem_size + LARGE_PAGE_SIZE - 1) / LARGE_PAGE_SIZE as int) as nat;
    if pages < 512 {
        pages
    } else {
        512
    }
}

/// `m` with the identity map of `mem_size` bytes written: PML4 entry 0 points
/// at the PDPT, PDPT entry 0 at the page directory (both present and
/// writable), and the page directory maps the large pages.
pub open spec fn identity_map(m: Seq<u8>, mem_size: u64) -> Seq<u8> {
    let top = splice(splice(m, PML4_ADDR as int, le64(PDPT_ADDR | 3)), PDPT_ADDR as int, le64(PD_ADDR | 3));
    with_pd_entries(top, pd_entry_count(mem_size))
}

/// Write the identity-mapped page tables (2 MB pages) for `mem_size` bytes
/// of guest memory.
pub fn write_page_tables(memory: &mut GuestMemory, mem_size: u64) -> (r: Result<()>)
    requires
        mem_size + LARGE_PAGE_SIZE <= u64::MAX,
    ensures
        final(memory)@.len() == old(memory)@.len(),
        old(memory)@.len() >= PD_ADDR + 8 * 512 ==> r is Ok,
        r is Ok ==> final(memory)@ == identity_map(old(memory)@, mem_size),
{
    let num_pages = (mem_size + (LARGE_PAGE_SIZE - 1)) / LARGE_PAGE_SIZE;
    let pml4_entry = u64_to_le(PDPT_ADDR | 0x03);
    memory.write_guest(PML4_ADDR, pml4_entry.as_slice())?;
    let pdpt_entry = u64_to_le(PD_ADDR | 0x03);
    memory.write_guest(PDPT_ADDR, pdpt_entry.as_slice())?;
    let count = if num_pages < 512 {
        num_pages
    } else {
        512
    };
    let ghost top = memory@;
    let mut i: u64 = 0;
    while i < count
        invariant
            count <= 512,
            count == pd_entry_count(mem_size),
            i <= count,
            memory@.len() == old(memory)@.len(),
            top == splice(splice(old(memory)@, PML4_ADDR as int, le64(PDPT_ADDR | 3)), PDPT_ADDR as int, le64(PD_ADDR | 3)),
            memory@ == with_pd_entries(top, i as nat),
        decreases count - i,
    {
        let entry = u64_to_le((i * LARGE_PAGE_SIZE) | 0x83);
        memory.write_guest(PD_ADDR + i * 8, entry.as_slice())?;
        i = i + 1;
    }
    Ok(())
}

/// `m` with the long-mode GDT written: two null entries, then the 64-bit
/// code descriptor and the data descriptor.
pub open spec fn gdt_64bit(m: Seq<u8>) -> Seq<u8> {
    splice(
        splice(
            splice(splice(m, GDT_ADDR as int, le64(0)), GDT_ADDR + 8, le64(0)),
            GDT_ADDR + 16,
            le64(CODE_DESCRIPTOR_64),
        ),
        GDT_ADDR + 24,
        le64(DATA_DESCRIPTOR_64),
    )
}

/// Write the minimal long-mode GDT at `GDT_ADDR`.
pub fn write_gdt_64bit(memory: &mut GuestMemory) -> (r: Result<()>)
    ensures
        final(memory)@.len() == old(memory)@.len(),
        old(memory)@.len() >= GDT_ADDR + 32 ==> r is Ok,
        r is Ok ==> final(memory)@ == gdt_64bit(old(memory)@),
{
    let null = u64_to_le(0);
    memory.write_guest(GDT_ADDR, null.as_slice())?;
    memory.write_guest(GDT_ADDR + 8, null.as_slice())?;
    let code = u64_to_le(CODE_DESCRIPTOR_64);
    memory.write_guest(GDT_ADDR + 16, code.as_slice())?;
    let data = u64_to_le(DATA_DESCRIPTOR_64);
    memory.write_guest(GDT_ADDR + 24, data.as_slice())?;
    Ok(())
}

/// A flat 32/64-bit read/write data segment with the given selector.
pub open spec fn flat_data_segment(selector: u16) -> Segment {
    Segment {
        base: 0,
        limit: 0xfffff,
        selector,
        type_: 0x3,
        present: 1,
        dpl: 0,
        db: 1,
        s: 1,
        l: 0,
        g: 1,
        avl: 0,
        unusable: 0,
        padding: 0,
    }
}

/// Build a flat 32/64-bit data segment descriptor.
pub fn make_flat_data_segment(selector: u16) -> (s: Segment)
    ensures
        s == flat_data_segment(selector),
{
    Segment {
        base: 0,
        limit: 0xfffff,
        selector,
        type_: 0x3,
        present: 1,
        dpl: 0,
        db: 1,
        s: 1,
        l: 0,
        g: 1,
        avl: 0,
        unusable: 0,
        padding: 0,
    }
}

/// A flat segment of the 32-bit decompressor's GDT: code (type 0xa) or
/// data (type 0x2), 4 GiB with 4 KiB granularity.
pub open spec fn protected_mode_segment(selector: u16, type_: u8) -> Segment {
    Segment {
        base: 0,
        limit: 0xffffffff,
        selector,
        type_,
        present: 1,
        dpl: 0,
        db: 1,
        s: 1,
        l: 0,
        g: 1,
        avl: 0,
        unusable: 0,
        padding: 0,
    }
}

/// `s` set up for 64-bit long mode: paging, PAE and long mode on, the
/// long-mode code segment, flat data segments, the GDT at `GDT_ADDR` and
/// the page tables at `PML4_ADDR`.
pub open spec fn long_mode_registers(s: SystemRegisters) -> SystemRegisters {
    SystemRegisters {
        cr0: 0x80000011,
        cr4: 0x20,
        efer: 0x500,
        cs: Segment {
            base: 0,
            limit: 0xfffff,
            selector: KERNEL_CODE_SEGMENT,
            type_: 0xb,
            present: 1,
            dpl: 0,
            db: 0,
            s: 1,
            l: 1,
            g: 1,
            avl: 0,
            unusable: 0,
            padding: 0,
        },
        ds: flat_data_segment(KERNEL_DATA_SEGMENT),
        es: flat_data_segment(KERNEL_DATA_SEGMENT),
        fs: flat_data_segment(KERNEL_DATA_SEGMENT),
        gs: flat_data_segment(KERNEL_DATA_SEGMENT),
        ss: flat_data_segment(KERNEL_DATA_SEGMENT),
        gdt: crate::regs::DescriptorTable { base: GDT_ADDR, limit: 31, padding: s.gdt.padding },
        cr3: PML4_ADDR,
        ..s
    }
}

/// A long-mode boot enters 64-bit mode: protection and paging on (CR0 bits
/// 0 and 31), PAE on (CR4 bit 5), long mode enabled and active (EFER bits 8
/// and 10), the page tables at `PML4_ADDR` and the GDT at `GDT_ADDR`; CS is
/// a present 64-bit code segment (L set, D clear) at selector 0x10 and every
/// data and stack segment register holds the same flat data segment at
/// selector 0x18. The interrupt table and APIC base are kept.
pub proof fn lemma_long_mode_setup(s: SystemRegisters)
    ensures
        ({
            let r = long_mode_registers(s);
            &&& r.cr0 & 1 == 1
            &&& r.cr0 & 0x80000000 != 0
            &&& r.cr4 & 0x20 != 0
            &&& r.efer & 0x100 != 0
            &&& r.efer & 0x400 != 0
            &&& r.cr3 == PML4_ADDR
            &&& r.gdt.base == GDT_ADDR
            &&& r.cs.selector == 0x10 && r.cs.l == 1 && r.cs.db == 0 && r.cs.present == 1 && r.cs.s == 1
            &&& r.ds.selector == 0x18 && r.ds.present == 1 && r.ds.base == 0
            &&& r.ss == r.ds && r.es == r.ds && r.fs == r.ds && r.gs == r.ds
            &&& r.idt == s.idt
            &&& r.apic_base == s.apic_base
        }),
{
    assert(0x80000011u64 & 1 == 1 && 0x80000011u64 & 0x80000000 != 0) by (bit_vector);
    assert(0x20u64 & 0x20 != 0 && 0x500u64 & 0x100 != 0 && 0x500u64 & 0x400 != 0) by (bit_vector);
}

/// Entry registers: a long-mode kernel starts at the kernel's load address
/// with RSI at the initramfs and the stack at `BOOT_STACK_POINTER`; the
/// bzImage decompressor starts at the payload's load address with RSI at
/// the zero page (`BOOT_PARAMS_ADDR`, where the boot parameters are
/// written), the stack at 64 KiB, RFLAGS holding only its reserved bit, and
/// the other legacy general registers cleared.
pub proof fn lemma_entry_registers(r: Registers)
    ensures
        long_mode_entry(r).rip == KERNEL_LOAD_ADDR,
        long_mode_entry(r).rsi == INITRAMFS_LOAD_ADDR,
        long_mode_entry(r).rsp == BOOT_STACK_POINTER,
        protected_mode_entry(r).rip == KERNEL_LOAD_ADDR,
        protected_mode_entry(r).rsi == BOOT_PARAMS_ADDR,
        protected_mode_entry(r).rsp == 0x10000,
        protected_mode_entry(r).rflags == 2,
        protected_mode_entry(r).rax == 0 && protected_mode_entry(r).rbx == 0 && protected_mode_entry(r).rcx == 0
            && protected_mode_entry(r).rdx == 0 && protected_mode_entry(r).rdi == 0 && protected_mode_entry(r).rbp == 0,
        KERNEL_LOAD_ADDR == 0x100000,
        BOOT_PARAMS_ADDR == 0x90000,
{
}

/// The system registers of a long-mode boot (see `long_mode_registers`).
pub fn long_mode_system_registers(s: SystemRegisters) -> (r: SystemRegisters)
    ensures
        r == long_mode_registers(s),
{
    let mut r = s;
    r.cr0 = 0x80000011;
    r.cr4 = 0x20;
    r.efer = 0x500;
    r.cs = Segment {
        base: 0,
        limit: 0xfffff,
        selector: KERNEL_CODE_SEGMENT,
        type_: 0xb,
        present: 1,
        dpl: 0,
        db: 0,
        s: 1,
        l: 1,
        g: 1,
        avl: 0,
        unusable: 0,
        padding: 0,
    };
    r.ds = make_flat_data_segment(KERNEL_DATA_SEGMENT);
    r.es = make_flat_data_segment(KERNEL_DATA_SEGMENT);
    r.fs = make_flat_data_segment(KERNEL_DATA_SEGMENT);
    r.gs = make_flat_data_segment(KERNEL_DATA_SEGMENT);
    r.ss = make_flat_data_segment(KERNEL_DATA_SEGMENT);
    r.gdt.base = GDT_ADDR;
    r.gdt.limit = 31;
    r.cr3 = PML4_ADDR;
    r
}

/// `s` set up for the bzImage decompressor: 32-bit protected mode without
/// paging, the GDT at `GDT_ADDR`, flat code at 0x10 and flat data at 0x18
/// in every data and stack segment.
pub open spec fn protected_mode_registers(s: SystemRegisters) -> SystemRegisters {
    SystemRegisters {
        gdt: crate::regs::DescriptorTable { base: GDT_ADDR, limit: 31, padding: s.gdt.padding },
        cs: protected_mode_segment(0x10, 0xa),
        ds: protected_mode_segment(0x18, 0x2),
        ss: protected_mode_segment(0x18, 0x2),
        es: protected_mode_segment(0x18, 0x2),
        fs: protected_mode_segment(0x18, 0x2),
        gs: protected_mode_segment(0x18, 0x2),
        cr0: 0x11,
        cr3: 0,
        cr4: 0,
        efer: 0,
        ..s
    }
}

/// Whether `g` is the flat 32-bit segment at `selector` of type `type_`:
/// base 0, 4 GiB limit with page granularity, 32-bit default size, present
/// code or data segment of privilege 0.
pub open spec fn is_flat_32bit_segment(g: Segment, selector: u16, type_: u8) -> bool {
    &&& g.selector == selector
    &&& g.type_ == type_
    &&& g.base == 0
    &&& g.limit == 0xffffffff
    &&& g.db == 1
    &&& g.g == 1
    &&& g.l == 0
    &&& g.s == 1
    &&& g.present == 1
    &&& g.dpl == 0
    &&& g.unusable == 0
}

/// The bzImage decompressor starts in flat 32-bit protected mode: code at
/// selector 0x10, and every data and stack segment register (DS, ES, FS,
/// GS and SS) holding the same flat data segment at selector 0x18; paging,
/// PAE and long mode are off and the four-entry GDT is at `GDT_ADDR`. The
/// interrupt table and the APIC base are kept.
pub proof fn lemma_protected_mode_segments(s: SystemRegisters)
    ensures
        ({
            let r = protected_mode_registers(s);
            &&& is_flat_32bit_segment(r.cs, 0x10, 0xa)
            &&& is_flat_32bit_segment(r.ds, 0x18, 0x2)
            &&& r.ss == r.ds
            &&& r.es == r.ds
            &&& r.fs == r.ds
            &&& r.gs == r.ds
            &&& r.cr0 & 1 == 1
            &&& r.cr0 & 0x80000000 == 0
            &&& r.cr4 & 0x20 == 0
            &&& r.efer == 0
            &&& r.gdt.base == GDT_ADDR
            &&& r.gdt.limit == 31
            &&& r.idt == s.idt
            &&& r.apic_base == s.apic_base
        }),
{
    let r = protected_mode_registers(s);
    assert(r.cr0 == 0x11);
    assert(0x11u64 & 1 == 1 && 0x11u64 & 0x80000000 == 0 && 0u64 & 0x20 == 0) by (bit_vector);
}

/// The system registers of a bzImage boot (see `protected_mode_registers`
/// and `lemma_protected_mode_segments`).
pub fn protected_mode_system_registers(s: SystemRegisters) -> (r: SystemRegisters)
    ensures
        r == protected_mode_registers(s),
        r.ss == r.ds && r.es == r.ds && r.fs == r.ds && r.gs == r.ds,
        is_flat_32bit_segment(r.ds, 0x18, 0x2),
        is_flat_32bit_segment(r.cs, 0x10, 0xa),
        r.cr0 == 0x11 && r.cr4 == 0 && r.efer == 0,
{
    let mut r = s;
    r.gdt.base = GDT_ADDR;
    r.gdt.limit = 31;
    r.cs = Segment {
        base: 0,
        limit: 0xffffffff,
        selector: 0x10,
        type_: 0xa,
        present: 1,
        dpl: 0,
        db: 1,
        s: 1,
        l: 0,
        g: 1,
        avl: 0,
        unusable: 0,
        padding: 0,
    };
    r.ds = Segment {
        base: 0,
        limit: 0xffffffff,
        selector: 0x18,
        type_: 0x2,
        present: 1,
        dpl: 0,
        db: 1,
        s: 1,
        l: 0,
        g: 1,
        avl: 0,
        unusable: 0,
        padding: 0,
    };
    r.ss = r.ds;
    r.es = r.ds;
    r.fs = r.ds;
    r.gs = r.ds;
    r.cr0 = 0x11;
    r.cr3 = 0;
    r.cr4 = 0;
    r.efer = 0;
    r
}

/// `r` set up to enter a long-mode kernel: RIP at the kernel, RSI at the
/// initramfs, RSP at the boot stack; the other registers are kept.
pub open spec fn long_mode_entry(r: Registers) -> Registers {
    Registers { rip: KERNEL_LOAD_ADDR, rsi: INITRAMFS_LOAD_ADDR, rsp: BOOT_STACK_POINTER, ..r }
}

/// `r` set up to enter the bzImage decompressor: RSI at the zero page, RIP
/// at the payload, RSP at 64 KiB, RFLAGS 0x2 and the other legacy registers
/// cleared.
pub open spec fn protected_mode_entry(r: Registers) -> Registers {
    Registers {
        rax: 0,
        rbx: 0,
        rcx: 0,
        rdx: 0,
        rsi: BOOT_PARAMS_ADDR,
        rdi: 0,
        rbp: 0,
        rip: KERNEL_LOAD_ADDR,
        rsp: 0x10000,
        rflags: 0x2,
        ..r
    }
}

/// The little-endian value of the first (at most eight) bytes of `d`, the
/// missing high bytes taken as zero.
pub open spec fn le_value(d: Seq<u8>) -> u64 {
    read_le64(Seq::new(8, |i: int| if i < d.len() { d[i] } else { 0u8 }), 0)
}

/// The value carried by an MMIO write of `data`.
pub fn mmio_value(data: &[u8]) -> (v: u64)
    ensures
        v == le_value(data@),
{
    let mut bytes = vec![0u8; 8];
    let n = if data.len() < 8 {
        data.len()
    } else {
        8
    };
    copy_into_vec(&mut bytes, 0, data, 0, n);
    assert(bytes@ =~= Seq::new(8, |i: int| if i < data@.len() { data@[i] } else { 0u8 }));
    get_le64(bytes.as_slice(), 0)
}

/// Whether guest-physical `addr` falls in the block device's MMIO window.
pub open spec fn in_block_window(addr: u64) -> bool {
    VIRTIO_MMIO_START <= addr && addr < VIRTIO_MMIO_START + VIRTIO_MMIO_SIZE
}

/// What one run of the boot vCPU came to.
#[derive(Debug)]
pub enum RunEvent {
    /// The guest halted or shut down.
    Halted,
    /// Bytes the guest wrote to the serial port.
    SerialOutput(Vec<u8>),
    /// An output to another I/O port.
    IoOut { port: u16, data: Vec<u8> },
    /// An input from an I/O port, left to KVM.
    IoIn { port: u16 },
    /// A read of MMIO space, already answered.
    MmioRead { addr: u64, size: u8 },
    /// A write to MMIO space; for the block device, how it went.
    MmioWrite { addr: u64, size: u8, data: Vec<u8>, outcome: Result<()> },
    /// The guest raised an exception.
    Exception,
    /// The hypervisor could not enter the guest.
    FailEntry { hardware_entry_failure_reason: u64 },
    /// KVM reported an internal error.
    InternalError,
    /// An exit the monitor does not handle.
    Unknown,
    /// Running the vCPU failed.
    RunFailed(LiteDroidError),
}

/// Whether `e` ends the run: a halt or shutdown, an exception, a failed
/// entry, an internal error or a failed run.
pub open spec fn ends_run(e: RunEvent) -> bool {
    match e {
        RunEvent::Halted | RunEvent::Exception | RunEvent::FailEntry { .. } | RunEvent::InternalError
        | RunEvent::RunFailed(_) => true,
        _ => false,
    }
}

/// Whether `x` is a guest write inside the block device's window.
pub open spec fn writes_block(x: Result<VcpuExitInfo>) -> bool {
    x matches Ok(VcpuExitInfo::MmioWrite { addr, .. }) && in_block_window(addr)
}

/// The event that reports exit `x`; `outcome` is what the block device
/// answered to a write into its window. A halt and a shutdown are both a
/// halt; output to the serial port is serial output.
pub open spec fn exit_event(x: Result<VcpuExitInfo>, outcome: Result<()>) -> RunEvent {
    match x {
        Ok(VcpuExitInfo::Hlt) => RunEvent::Halted,
        Ok(VcpuExitInfo::Shutdown) => RunEvent::Halted,
        Ok(VcpuExitInfo::IoOut { port, data }) => if port == SERIAL_IO_BASE {
            RunEvent::SerialOutput(data)
        } else {
            RunEvent::IoOut { port, data }
        },
        Ok(VcpuExitInfo::IoIn { port }) => RunEvent::IoIn { port },
        Ok(VcpuExitInfo::MmioRead { addr, size }) => RunEvent::MmioRead { addr, size },
        Ok(VcpuExitInfo::MmioWrite { addr, size, data }) => RunEvent::MmioWrite { addr, size, data, outcome },
        Ok(VcpuExitInfo::Exception) => RunEvent::Exception,
        Ok(VcpuExitInfo::FailEntry { hardware_entry_failure_reason }) => RunEvent::FailEntry {
            hardware_entry_failure_reason,
        },
        Ok(VcpuExitInfo::InternalError) => RunEvent::InternalError,
        Ok(VcpuExitInfo::Unknown) => RunEvent::Unknown,
        Err(e) => RunEvent::RunFailed(e),
    }
}

/// Whether `e` is how exit `x` is reported: as `exit_event` gives it, with
/// the block device's answer for a write into its window and `Ok` for any
/// other write.
pub open spec fn reports_exit(e: RunEvent, x: Result<VcpuExitInfo>) -> bool {
    if writes_block(x) {
        e matches RunEvent::MmioWrite { outcome, .. } && e == exit_event(x, outcome)
    } else {
        e == exit_event(x, Ok(()))
    }
}

/// How the guest's exits are reported: bytes written to the serial port
/// 0x3f8 are serial output, unchanged; a write to any other port is an
/// ordinary port write; a halt and a shutdown both halt the guest; a failed
/// run is reported with its error; a write into the block device's window
/// carries the device's answer.
pub proof fn lemma_exit_reports(data: Vec<u8>, port: u16, outcome: Result<()>, err: LiteDroidError, addr: u64, size: u8)
    ensures
        exit_event(Ok(VcpuExitInfo::IoOut { port: 0x3f8, data }), outcome) == RunEvent::SerialOutput(data),
        port != 0x3f8 ==> exit_event(Ok(VcpuExitInfo::IoOut { port, data }), outcome) == (RunEvent::IoOut {
            port,
            data,
        }),
        exit_event(Ok(VcpuExitInfo::Hlt), outcome) == RunEvent::Halted,
        exit_event(Ok(VcpuExitInfo::Shutdown), outcome) == RunEvent::Halted,
        exit_event(Err(err), outcome) == RunEvent::RunFailed(err),
        exit_event(Ok(VcpuExitInfo::MmioWrite { addr, size, data }), outcome) == (RunEvent::MmioWrite {
            addr,
            size,
            data,
            outcome,
        }),
        ends_run(RunEvent::Halted) && ends_run(RunEvent::RunFailed(err)) && !ends_run(RunEvent::SerialOutput(data)),
{
}

/// Whether event `e` ends the run (see `ends_run`).
pub fn stops_guest(e: &RunEvent) -> (b: bool)
    ensures
        b == ends_run(*e),
{
    match e {
        RunEvent::Halted => true,
        RunEvent::Exception => true,
        RunEvent::FailEntry { .. } => true,
        RunEvent::InternalError => true,
        RunEvent::RunFailed(_) => true,
        _ => false,
    }
}

/// The text that reports serial byte `b`: the character itself when it is
/// printable ASCII, `<LF>` and `<CR>` for line feed and carriage return,
/// and `<0x..>` (two lowercase hex digits) for any other byte.
pub open spec fn serial_text_spec(b: u8) -> Seq<char> {
    if 32 <= b < 127 {
        seq![b as char]
    } else if b == 10 {
        "<LF>"@
    } else if b == 13 {
        "<CR>"@
    } else {
        "<0x"@ + seq![hex_digit_char((b / 16) as nat), hex_digit_char((b % 16) as nat)] + ">"@
    }
}

fn hex_digit_of(d: u8) -> (c: char)
    requires
        d < 16,
    ensures
        c == hex_digit_char(d as nat),
{
    if d < 10 {
        ((48u8 + d) as char)
    } else {
        ((87u8 + d) as char)
    }
}

/// Render serial byte `b` for the guest console log (see
/// `serial_text_spec`).
pub fn serial_text(b: u8) -> (s: String)
    ensures
        s@ == serial_text_spec(b),
{
    if 32 <= b && b < 127 {
        let mut s = String::new();
        s.push(b as char);
        s
    } else if b == 10 {
        String::from_str("<LF>")
    } else if b == 13 {
        String::from_str("<CR>")
    } else {
        let mut s = String::from_str("<0x");
        s.push(hex_digit_of(b / 16));
        s.push(hex_digit_of(b % 16));
        s.push('>');
        proof {
            reveal_strlit("<0x");
            reveal_strlit(">");
        }
        s
    }
}

/// The bytes the guest reads at MMIO address `addr` in place of `current`:
/// inside the block device's window, the low bytes of the register (least
/// significant first); elsewhere, or for a read wider than a register,
/// `current` unchanged.
fn block_answer(block: &VirtioBlock, addr: u64, current: Vec<u8>) -> (v: Vec<u8>)
    ensures
        v@.len() == current@.len(),
        !in_block_window(addr) ==> v@ == current@,
        in_block_window(addr) && current@.len() <= 8 ==> v@ == le64(
            low_bytes(
                vblk_register(
                    (addr - VIRTIO_MMIO_START) as u64,
                    block.queue_num(),
                    block.queue_pfn(),
                    block.status(),
                    block.disk_size(),
                ),
                current@.len() as usize,
            ),
        ).subrange(0, current@.len() as int),
        in_block_window(addr) && current@.len() > 8 ==> v@ == current@,
{
    if VIRTIO_MMIO_START <= addr && addr < VIRTIO_MMIO_START + VIRTIO_MMIO_SIZE && current.len() <= 8 {
        let value = block.read(addr - VIRTIO_MMIO_START, current.len());
        let bytes = u64_to_le(value);
        copy_range(bytes.as_slice(), 0, current.len())
    } else {
        current
    }
}

/// Top-level object that owns all resources needed to run a single guest.
pub struct VirtualMachine {
    hypervisor: Hypervisor,
    vm: Vm,
    vcpus: Vec<Vcpu>,
    guest_memory: GuestMemory,
    config: DeviceConfig,
    kernel: LoadedKernel,
    initramfs_size: u64,
    block_device: VirtioBlock,
    running: RunFlag,
}

impl VirtualMachine {
    /// Guest RAM, address 0 first.
    pub closed spec fn memory(&self) -> Seq<u8> {
        self.guest_memory@
    }

    /// The configuration the machine was built from.
    pub closed spec fn configuration(&self) -> DeviceConfig {
        self.config
    }

    /// The kernel as it was loaded.
    pub closed spec fn kernel(&self) -> LoadedKernel {
        self.kernel
    }

    /// Size of the loaded initramfs in bytes.
    pub closed spec fn initramfs_len(&self) -> u64 {
        self.initramfs_size
    }

    /// Number of vCPUs.
    pub closed spec fn vcpu_count(&self) -> nat {
        self.vcpus@.len()
    }

    /// The index vCPU `i` of the machine was created with.
    pub closed spec fn vcpu_index(&self, i: int) -> u32 {
        self.vcpus@[i].index()
    }

    /// The machine's standing invariant: a valid configuration, at least one
    /// vCPU, RAM of the configured size, and a complete boot header for a
    /// bzImage kernel.
    pub closed spec fn wf(&self) -> bool {
        &&& self.config.is_valid()
        &&& self.vcpus@.len() >= 1
        &&& self.guest_memory@.len() == self.config.ram_mb * 0x100000
        &&& self.kernel matches LoadedKernel::BzImage { header } ==> header@.len() == SETUP_HEADER_END
            - SETUP_HEADER_START
    }

    /// Handle one exit of the boot vCPU: a write inside the block device's
    /// window goes to the device, whose answer the event carries; every
    /// exit is reported as `exit_event` gives it, and an event that ends the
    /// run clears the run flag.
    pub fn handle_exit(&mut self, exit: Result<VcpuExitInfo>) -> (e: RunEvent)
        requires
            old(self).wf(),
        ensures
            final(self).wf(),
            final(self).configuration() == old(self).configuration(),
            final(self).kernel() == old(self).kernel(),
            final(self).initramfs_len() == old(self).initramfs_len(),
            final(self).vcpu_count() == old(self).vcpu_count(),
            !writes_block(exit) ==> e == exit_event(exit, Ok(())) && final(self).memory() == old(self).memory(),
            exit matches Ok(VcpuExitInfo::IoOut { port, data }) ==> (port == 0x3f8 ==> e == RunEvent::SerialOutput(data))
                && (port != 0x3f8 ==> e == (RunEvent::IoOut { port, data })),
            (exit matches Ok(VcpuExitInfo::Hlt)) || (exit matches Ok(VcpuExitInfo::Shutdown)) ==> e == RunEvent::Halted,
            exit matches Err(err) ==> e == RunEvent::RunFailed(err),
            writes_block(exit) ==> (e matches RunEvent::MmioWrite { outcome, .. } && e == exit_event(exit, outcome)),
    {
        let event = match exit {
            Ok(VcpuExitInfo::Hlt) => RunEvent::Halted,
            Ok(VcpuExitInfo::Shutdown) => RunEvent::Halted,
            Ok(VcpuExitInfo::IoOut { port, data }) => {
                if port == SERIAL_IO_BASE {
                    RunEvent::SerialOutput(data)
                } else {
                    RunEvent::IoOut { port, data }
                }
            },
            Ok(VcpuExitInfo::IoIn { port }) => RunEvent::IoIn { port },
            Ok(VcpuExitInfo::MmioRead { addr, size }) => RunEvent::MmioRead { addr, size },
            Ok(VcpuExitInfo::MmioWrite { addr, size, data }) => {
                let outcome = if VIRTIO_MMIO_START <= addr && addr < VIRTIO_MMIO_START + VIRTIO_MMIO_SIZE {
                    let value = mmio_value(data.as_slice());
                    self.block_device.write(addr - VIRTIO_MMIO_START, size, value, &mut self.guest_memory)
                } else {
                    Ok(())
                };
                RunEvent::MmioWrite { addr, size, data, outcome }
            },
            Ok(VcpuExitInfo::Exception) => RunEvent::Exception,
            Ok(VcpuExitInfo::FailEntry { hardware_entry_failure_reason }) => RunEvent::FailEntry {
                hardware_entry_failure_reason,
            },
            Ok(VcpuExitInfo::InternalError) => RunEvent::InternalError,
            Ok(VcpuExitInfo::Unknown) => RunEvent::Unknown,
            Err(e) => RunEvent::RunFailed(e),
        };
        if stops_guest(&event) {
            self.running.store(false);
        }
        event
    }

    /// Run one exit of the boot vCPU and handle it (see `handle_exit`):
    /// MMIO reads inside the block device's window are answered from its
    /// registers, least significant byte first; other reads keep what KVM
    /// placed in the buffer.
    ///
    /// Guest RAM is mapped into the guest, which writes it while it runs, so
    /// nothing is claimed of its contents after a step, only of its size.
    pub fn run_step(&mut self) -> (e: RunEvent)
        requires
            old(self).wf(),
        ensures
            final(self).wf(),
            final(self).configuration() == old(self).configuration(),
            final(self).kernel() == old(self).kernel(),
            final(self).initramfs_len() == old(self).initramfs_len(),
            final(self).vcpu_count() == old(self).vcpu_count(),
            exists|x: Result<VcpuExitInfo>| #[trigger] reports_exit(e, x),
    {
        let block = &self.block_device;
        let vcpu = &mut self.vcpus[0];
        let answer = |addr: u64, current: Vec<u8>| -> (v: Vec<u8>)
            ensures
                current@.len() == v@.len(),
            { block_answer(block, addr, current) };
        let exit = vcpu.run_with_mmio(answer);
        let ghost reported = exit;
        let e = self.handle_exit(exit);
        assert(reports_exit(e, reported));
        e
    }

    /// Build a virtual machine from `config`: open KVM, create the VM with
    /// its interrupt controller and timer, allocate guest RAM, and create
    /// `config.vcpu_count` vCPUs programmed with the host's CPUID leaves as
    /// filtered for Android. `disk` backs the virtio block device.
    ///
    /// Guest RAM is registered with KVM by the caller, through `vm()` and
    /// `guest_memory()`, before the guest runs.
    pub fn new(config: DeviceConfig, disk: Box<dyn BlockBackend>) -> (r: Result<Self>)
        ensures
            !config.is_valid() ==> (r matches Err(LiteDroidError::ConfigError(m)) && Some(m@) == config_violation(
                config.ram_mb,
                config.vcpu_count,
                config.supported_abis@.len(),
            )),
            r matches Ok(v) ==> v.wf() && v.configuration() == config && v.memory() == Seq::new(
                (config.ram_mb * 0x100000) as nat,
                |i: int| 0u8,
            ) && v.vcpu_count() == config.vcpu_count && v.kernel() == LoadedKernel::Flat && v.initramfs_len() == 0,
            r matches Ok(v) ==> forall|i: int| 0 <= i < v.vcpu_count() ==> #[trigger] v.vcpu_index(i) == i,
    {
        config.validate()?;
        let hypervisor = Hypervisor::new()?;
        let vm = hypervisor.create_vm()?;
        // Android's Linux kernel expects the conventional x86 interrupt
        // controller to exist before it initializes its interrupt tables.
        vm.create_irq_chip()?;
        vm.create_pit()?;
        vm.set_tss_addr(0xfffbd000)?;
        vm.set_identity_map_addr(0xfffbc000)?;
        let mem_size = config.ram_mb * 1024 * 1024;
        let guest_memory = GuestMemory::new(mem_size)?;
        let mut filtered_cpuid = hypervisor.get_supported_cpuid()?;
        filter_for_android(&mut filtered_cpuid);
        let mut vcpus: Vec<Vcpu> = Vec::new();
        let mut i: u32 = 0;
        while i < config.vcpu_count
            invariant
                config.is_valid(),
                mem_size == config.ram_mb * 0x100000,
                guest_memory@ == Seq::new(mem_size as nat, |k: int| 0u8),
                i <= config.vcpu_count,
                vcpus@.len() == i,
                forall|j: int| 0 <= j < i ==> #[trigger] vcpus@[j].index() == j,
            decreases config.vcpu_count - i,
        {
            let vcpu = vm.create_vcpu(i)?;
            vcpu.set_cpuid(&filtered_cpuid)?;
            vcpus.push(vcpu);
            i = i + 1;
        }
        Ok(
            VirtualMachine {
                hypervisor,
                vm,
                vcpus,
                guest_memory,
                config,
                kernel: LoadedKernel::Flat,
                initramfs_size: 0,
                block_device: VirtioBlock::new(disk),
                running: RunFlag::new(false),
            },
        )
    }

    /// Load the kernel image `data` into guest memory (see
    /// `load_kernel_image`) and remember how it was recognised.
    pub fn load_kernel(&mut self, data: &[u8]) -> (r: Result<()>)
        requires
            old(self).wf(),
            has_bzimage_signature(data@) ==> data@.len() >= SETUP_HEADER_END,
        ensures
            final(self).wf(),
            final(self).configuration() == old(self).configuration(),
            final(self).initramfs_len() == old(self).initramfs_len(),
            final(self).vcpu_count() == old(self).vcpu_count(),
            !has_bzimage_signature(data@) && r is Ok ==> final(self).kernel() == LoadedKernel::Flat
                && final(self).memory() == splice(old(self).memory(), KERNEL_LOAD_ADDR as int, data@),
            has_bzimage_signature(data@) && r is Ok ==> final(self).kernel() == (LoadedKernel::BzImage {
                header: final(self).kernel()->header,
            }) && final(self).kernel()->header@ == data@.subrange(
                SETUP_HEADER_START as int,
                SETUP_HEADER_END as int,
            ) && final(self).memory() == splice(
                splice(old(self).memory(), SETUP_LOAD_ADDR as int, data@.subrange(0, setup_size(data@) as int)),
                KERNEL_LOAD_ADDR as int,
                data@.subrange(setup_size(data@) as int, data@.len() as int),
            ),
            has_bzimage_signature(data@) && !bzimage_layout_ok(data@) ==> (r matches Err(
                LiteDroidError::KernelLoadFailed(m),
            ) && m@ == bzimage_layout_message(data@)),
            !has_bzimage_signature(data@) ==> (r is Ok <==> range_fits(
                KERNEL_LOAD_ADDR,
                data@.len(),
                old(self).memory().len(),
            )),
            has_bzimage_signature(data@) && bzimage_layout_ok(data@) ==> (r is Ok <==> bzimage_fits(
                data@,
                old(self).memory().len(),
            )),
            r is Err ==> final(self).kernel() == old(self).kernel(),
            r is Err && !(has_bzimage_signature(data@) && bzimage_layout_ok(data@) && range_fits(
                SETUP_LOAD_ADDR,
                setup_size(data@),
                old(self).memory().len(),
            )) ==> final(self).memory() == old(self).memory(),
            r is Err && has_bzimage_signature(data@) && bzimage_layout_ok(data@) && range_fits(
                SETUP_LOAD_ADDR,
                setup_size(data@),
                old(self).memory().len(),
            ) ==> final(self).memory() == splice(
                old(self).memory(),
                SETUP_LOAD_ADDR as int,
                data@.subrange(0, setup_size(data@) as int),
            ),
    {
        let loaded = load_kernel_image(&mut self.guest_memory, data)?;
        self.kernel = loaded;
        Ok(())
    }

    /// Load an initramfs / ramdisk into guest memory at
    /// `INITRAMFS_LOAD_ADDR` and remember its size.
    pub fn load_initramfs(&mut self, data: &[u8]) -> (r: Result<()>)
        requires
            old(self).wf(),
        ensures
            final(self).wf(),
            final(self).configuration() == old(self).configuration(),
            final(self).kernel() == old(self).kernel(),
            final(self).vcpu_count() == old(self).vcpu_count(),
            r is Ok <==> range_fits(INITRAMFS_LOAD_ADDR, data@.len(), old(self).memory().len()),
            r is Ok ==> final(self).memory() == splice(old(self).memory(), INITRAMFS_LOAD_ADDR as int, data@)
                && final(self).initramfs_len() == data@.len(),
            r is Err ==> final(self).memory() == old(self).memory() && final(self).initramfs_len()
                == old(self).initramfs_len(),
    {
        self.guest_memory.load_blob(INITRAMFS_LOAD_ADDR, data)?;
        self.initramfs_size = data.len() as u64;
        Ok(())
    }

    /// Write the identity-mapped page tables for the configured RAM.
    fn setup_page_tables(&mut self) -> (r: Result<()>)
        requires
            old(self).wf(),
        ensures
            final(self).wf(),
            final(self).configuration() == old(self).configuration(),
            final(self).kernel() == old(self).kernel(),
            final(self).initramfs_len() == old(self).initramfs_len(),
            final(self).vcpu_count() == old(self).vcpu_count(),
            r is Ok,
            final(self).memory() == identity_map(old(self).memory(), (old(self).configuration().ram_mb * 0x100000) as u64),
    {
        let mem_size = self.config.ram_mb * 1024 * 1024;
        write_page_tables(&mut self.guest_memory, mem_size)
    }

    /// Program the boot vCPU and guest memory so that the kernel starts: a
    /// bzImage enters its 32-bit decompressor with the boot parameters in
    /// place; any other kernel enters 64-bit long mode on identity-mapped
    /// page tables.
    pub fn setup_boot(&mut self) -> (r: Result<()>)
        requires
            old(self).wf(),
        ensures
            final(self).wf(),
            final(self).configuration() == old(self).configuration(),
            final(self).kernel() == old(self).kernel(),
            final(self).initramfs_len() == old(self).initramfs_len(),
            final(self).vcpu_count() == old(self).vcpu_count(),
            old(self).kernel() is Flat && r is Ok ==> final(self).memory() == gdt_64bit(
                identity_map(old(self).memory(), (old(self).configuration().ram_mb * 0x100000) as u64),
            ),
            old(self).kernel() matches LoadedKernel::BzImage { header } ==> r is Ok ==> final(self).memory()
                == bzimage_boot_memory(
                old(self).memory(),
                header@,
                old(self).configuration().kernel_cmdline@,
                old(self).initramfs_len(),
            ),
            old(self).kernel() is BzImage && encode_utf8(old(self).configuration().kernel_cmdline@).len() + 1
                > 0x800 ==> (r matches Err(LiteDroidError::KernelLoadFailed(m)) && m@
                == "kernel command line exceeds boot parameter space"@ && final(self).memory() == old(self).memory()),
    {
        if let LoadedKernel::BzImage { .. } = self.kernel {
            return self.setup_bzimage_boot();
        }
        self.setup_page_tables()?;
        write_gdt_64bit(&mut self.guest_memory)?;
        let vcpu = &self.vcpus[0];
        let sregs = vcpu.get_sregs()?;
        vcpu.set_sregs(&long_mode_system_registers(sregs))?;
        let regs = vcpu.get_regs()?;
        vcpu.set_regs(&long_mode_entry_registers(regs))?;
        Ok(())
    }

    fn setup_bzimage_boot(&mut self) -> (r: Result<()>)
        requires
            old(self).wf(),
            old(self).kernel() is BzImage,
        ensures
            final(self).wf(),
            final(self).configuration() == old(self).configuration(),
            final(self).kernel() == old(self).kernel(),
            final(self).initramfs_len() == old(self).initramfs_len(),
            final(self).vcpu_count() == old(self).vcpu_count(),
            old(self).kernel() matches LoadedKernel::BzImage { header } ==> r is Ok ==> final(self).memory()
                == bzimage_boot_memory(
                old(self).memory(),
                header@,
                old(self).configuration().kernel_cmdline@,
                old(self).initramfs_len(),
            ),
            encode_utf8(old(self).configuration().kernel_cmdline@).len() + 1 > 0x800 ==> (r matches Err(
                LiteDroidError::KernelLoadFailed(m),
            ) && m@ == "kernel command line exceeds boot parameter space"@ && final(self).memory() == old(
                self,
            ).memory()),
    {
        let header = match &self.kernel {
            LoadedKernel::BzImage { header } => header,
            LoadedKernel::Flat => {
                return Err(LiteDroidError::KernelLoadFailed(String::from_str("bzImage boot header was not retained")));
            },
        };
        if header.len() != SETUP_HEADER_END - SETUP_HEADER_START {
            return Err(LiteDroidError::KernelLoadFailed(String::from_str("bzImage boot header was not retained")));
        }
        // The command line gets its own buffer: the zero-page field at 0x228
        // is a pointer, not inline storage.
        let cmdline = self.config.kernel_cmdline.as_str().as_bytes();
        if cmdline.len() >= 0x800 {
            return Err(
                LiteDroidError::KernelLoadFailed(String::from_str("kernel command line exceeds boot parameter space")),
            );
        }
        let mut cmdline_data = copy_range(cmdline, 0, cmdline.len());
        cmdline_data.push(0u8);
        assert(cmdline@.subrange(0, cmdline@.len() as int) =~= cmdline@);
        let params = build_boot_params(header.as_slice(), cmdline.len(), self.initramfs_size);
        self.guest_memory.load_blob(CMDLINE_ADDR, cmdline_data.as_slice())?;
        self.guest_memory.load_blob(BOOT_PARAMS_ADDR, params.as_slice())?;
        let gdt = build_gdt_32bit();
        self.guest_memory.load_blob(GDT_ADDR, gdt.as_slice())?;
        let vcpu = &self.vcpus[0];
        let sregs = vcpu.get_sregs()?;
        vcpu.set_sregs(&protected_mode_system_registers(sregs))?;
        let regs = vcpu.get_regs()?;
        vcpu.set_regs(&protected_mode_entry_registers(regs))?;
        Ok(())
    }

    /// Mark the machine as running, as the run loop does when it starts.
    pub fn start(&self) {
        self.running.store(true);
    }

    /// Request the run loop to stop at its next iteration.
    pub fn stop(&self) {
        self.running.store(false);
    }

    /// The machine's run flag, which `start`, `stop` and a run step that
    /// ends the run set.
    pub closed spec fn run_flag(&self) -> RunFlag {
        self.running
    }

    /// A shared stop flag for a run loop owned by another thread: a handle
    /// on the machine's own run flag.
    pub fn stop_handle(&self) -> (h: std::sync::Arc<std::sync::atomic::AtomicBool>)
        ensures
            h == self.run_flag().shared(),
    {
        self.running.handle()
    }

    /// Whether the run loop is active.
    pub fn is_running(&self) -> bool {
        self.running.load()
    }

    /// Borrow the guest memory region.
    pub fn guest_memory(&self) -> (m: &GuestMemory)
        ensures
            m@ == self.memory(),
    {
        &self.guest_memory
    }

    /// Borrow the device configuration.
    pub fn config(&self) -> (c: &DeviceConfig)
        ensures
            *c == self.configuration(),
    {
        &self.config
    }

    /// The KVM VM the machine was built on.
    pub closed spec fn kvm_vm(&self) -> Vm {
        self.vm
    }

    /// The hypervisor handle the machine was built with.
    pub closed spec fn kvm_hypervisor(&self) -> Hypervisor {
        self.hypervisor
    }

    /// Borrow the KVM VM, for registering guest memory.
    pub fn vm(&self) -> (v: &Vm)
        ensures
            *v == self.kvm_vm(),
    {
        &self.vm
    }

    /// Borrow the hypervisor handle, for capability queries.
    pub fn hypervisor(&self) -> (h: &Hypervisor)
        ensures
            *h == self.kvm_hypervisor(),
    {
        &self.hypervisor
    }
}

/// Guest memory once a bzImage boot is prepared from `m`: the command line
/// (NUL-terminated UTF-8) at `CMDLINE_ADDR`, the zero page at
/// `BOOT_PARAMS_ADDR`, then the 32-bit GDT at `GDT_ADDR`.
pub open spec fn bzimage_boot_memory(m: Seq<u8>, header: Seq<u8>, cmdline: Seq<char>, initramfs_size: u64) -> Seq<u8> {
    let bytes = encode_utf8(cmdline);
    splice(
        splice(
            splice(m, CMDLINE_ADDR as int, bytes.push(0u8)),
            BOOT_PARAMS_ADDR as int,
            boot_params_image(header, bytes.len(), initramfs_size),
        ),
        GDT_ADDR as int,
        gdt_32bit_image(),
    )
}

/// The registers of a long-mode kernel entry (see `long_mode_entry`).
pub fn long_mode_entry_registers(r: Registers) -> (e: Registers)
    ensures
        e == long_mode_entry(r),
{
    Registers { rip: KERNEL_LOAD_ADDR, rsi: INITRAMFS_LOAD_ADDR, rsp: BOOT_STACK_POINTER, ..r }
}

/// The registers of a bzImage decompressor entry (see
/// `protected_mode_entry`).
pub fn protected_mode_entry_registers(r: Registers) -> (e: Registers)
    ensures
        e == protected_mode_entry(r),
{
    Registers {
        rax: 0,
        rbx: 0,
        rcx: 0,
        rdx: 0,
        rsi: BOOT_PARAMS_ADDR,
        rdi: 0,
        rbp: 0,
        rip: KERNEL_LOAD_ADDR,
        rsp: 0x10000,
        rflags: 0x2,
        ..r
    }
}

} // verus!
