//! The virtio-mmio block device of the VMM: its registers and the
//! processing of the requests that the guest places on its virtqueue.
use vstd::prelude::*;
use vstd::string::StrSliceExecFns;

use crate::error::{LiteDroidError, Result};
use crate::memory::{range_fits, GuestMemory};
use crate::seqs::{copy_range, splice};
use crate::storage::{image_slice, sectors, BlockBackend, ReadOnlyImage, SECTOR_SIZE};
use crate::wire::{get_le16, get_le32, get_le64, le16, le32, read_le16, read_le32, read_le64, u16_to_le, u32_to_le};

verus! {

/// "virt", read little-endian.
pub const VIRTIO_MAGIC: u32 = 0x74726976;

pub const VIRTIO_BLK: u32 = 2;

/// Descriptor flag: the chain continues in `next`.
pub const DESC_NEXT: u16 = 1;

/// Descriptor flag: the device writes the buffer.
pub const DESC_WRITE: u16 = 2;

/// The largest queue the device offers.
pub const QUEUE_NUM_MAX: u16 = 128;

/// The `u16` stored little-endian at guest address `a`, if it is in range.
pub open spec fn mem16(m: Seq<u8>, a: u64) -> Option<u16> {
    if range_fits(a, 2, m.len()) {
        Some(read_le16(m, a as int))
    } else {
        None
    }
}

/// The `u32` stored little-endian at guest address `a`, if it is in range.
pub open spec fn mem32(m: Seq<u8>, a: u64) -> Option<u32> {
    if range_fits(a, 4, m.len()) {
        Some(read_le32(m, a as int))
    } else {
        None
    }
}

/// The `u64` stored little-endian at guest address `a`, if it is in range.
pub open spec fn mem64(m: Seq<u8>, a: u64) -> Option<u64> {
    if range_fits(a, 8, m.len()) {
        Some(read_le64(m, a as int))
    } else {
        None
    }
}

/// Read a little-endian `u16` from guest memory.
pub fn guest_u16(memory: &GuestMemory, address: u64) -> (r: Result<u16>)
    ensures
        r matches Ok(v) ==> mem16(memory@, address) == Some(v),
        r matches Err(e) ==> mem16(memory@, address) is None && e == (LiteDroidError::GuestAddressOutOfRange { address }),
{
    let mut bytes = vec![0u8; 2];
    match memory.read_guest(address, bytes.as_mut_slice()) {
        Ok(()) => Ok(get_le16(bytes.as_slice(), 0)),
        Err(e) => Err(e),
    }
}

/// Read a little-endian `u32` from guest memory.
pub fn guest_u32(memory: &GuestMemory, address: u64) -> (r: Result<u32>)
    ensures
        r matches Ok(v) ==> mem32(memory@, address) == Some(v),
        r matches Err(e) ==> mem32(memory@, address) is None && e == (LiteDroidError::GuestAddressOutOfRange { address }),
{
    let mut bytes = vec![0u8; 4];
    match memory.read_guest(address, bytes.as_mut_slice()) {
        Ok(()) => Ok(get_le32(bytes.as_slice(), 0)),
        Err(e) => Err(e),
    }
}

/// Read a little-endian `u64` from guest memory.
pub fn guest_u64(memory: &GuestMemory, address: u64) -> (r: Result<u64>)
    ensures
        r matches Ok(v) ==> mem64(memory@, address) == Some(v),
        r matches Err(e) ==> mem64(memory@, address) is None && e == (LiteDroidError::GuestAddressOutOfRange { address }),
{
    let mut bytes = vec![0u8; 8];
    match memory.read_guest(address, bytes.as_mut_slice()) {
        Ok(()) => Ok(get_le64(bytes.as_slice(), 0)),
        Err(e) => Err(e),
    }
}

/// `value` rounded up to a multiple of `alignment`, a power of two.
pub open spec fn align_up_spec(value: u64, alignment: u64) -> u64 {
    ((value + (alignment - 1)) as u64) & !((alignment - 1) as u64)
}

/// Round `value` up to a multiple of the power of two `alignment`.
pub fn align_up(value: u64, alignment: u64) -> (r: u64)
    requires
        alignment >= 1,
        value + alignment - 1 <= u64::MAX,
    ensures
        r == align_up_spec(value, alignment),
{
    (value + (alignment - 1)) & !(alignment - 1)
}

/// Why a request chain on the virtqueue cannot be served.
#[derive(Debug, Clone, Copy, PartialEq, Eq, Structural)]
pub enum RequestFault {
    /// A descriptor or header lies outside guest memory.
    OutOfRange(u64),
    /// The header descriptor does not chain to a data descriptor.
    NoDataDescriptor,
    /// The data descriptor does not chain to a status descriptor inside the
    /// queue.
    BadStatusDescriptor,
    /// The status descriptor points at address zero.
    NullStatus,
    /// A read request whose buffer the device may not write.
    ReadOnlyBuffer,
    /// A write request whose buffer the device would write.
    WritableBuffer,
}

/// Whether `e` is the error that reports `f`.
pub open spec fn fault_error(f: RequestFault, e: LiteDroidError) -> bool {
    match f {
        RequestFault::OutOfRange(a) => e == (LiteDroidError::GuestAddressOutOfRange { address: a }),
        RequestFault::NoDataDescriptor => e matches LiteDroidError::DiskIo(m) && m@
            == "virtio request has no data descriptor"@,
        RequestFault::BadStatusDescriptor => e matches LiteDroidError::DiskIo(m) && m@
            == "virtio request has invalid status descriptor"@,
        RequestFault::NullStatus => e matches LiteDroidError::DiskIo(m) && m@ == "virtio status address is null"@,
        RequestFault::ReadOnlyBuffer => e matches LiteDroidError::DiskIo(m) && m@
            == "virtio read buffer is not writable"@,
        RequestFault::WritableBuffer => e matches LiteDroidError::DiskIo(m) && m@
            == "virtio write buffer is not readable"@,
    }
}

/// What a well-formed request chain asks of the device.
#[derive(Debug, Clone, Copy, PartialEq, Eq, Structural)]
pub struct RequestPlan {
    /// 0 reads from the disk, 1 writes to it; other types are unsupported.
    pub request_type: u32,
    pub sector: u64,
    pub payload_addr: u64,
    pub payload_len: u32,
    pub payload_flags: u16,
    pub status_addr: u64,
}

/// The descriptor `index` of the table at `queue`.
pub open spec fn descriptor(queue: u64, index: u16) -> u64 {
    (queue + index * 16) as u64
}

/// The request header named by descriptor `head`: its type, its sector and
/// the next descriptor of the chain.
pub open spec fn header_plan(m: Seq<u8>, queue: u64, head: u16) -> core::result::Result<(u32, u64, u16), RequestFault> {
    let desc = descriptor(queue, head);
    if mem64(m, desc) is None {
        Err(RequestFault::OutOfRange(desc))
    } else if mem16(m, (desc + 12) as u64) is None {
        Err(RequestFault::OutOfRange((desc + 12) as u64))
    } else if mem16(m, (desc + 14) as u64) is None {
        Err(RequestFault::OutOfRange((desc + 14) as u64))
    } else {
        let header_addr = mem64(m, desc)->0;
        let flags = mem16(m, (desc + 12) as u64)->0;
        let next = mem16(m, (desc + 14) as u64)->0;
        if flags & DESC_NEXT == 0 {
            Err(RequestFault::NoDataDescriptor)
        } else if mem32(m, header_addr) is None {
            Err(RequestFault::OutOfRange(header_addr))
        } else if header_addr + 8 > u64::MAX {
            Err(RequestFault::OutOfRange(header_addr))
        } else if mem64(m, (header_addr + 8) as u64) is None {
            Err(RequestFault::OutOfRange((header_addr + 8) as u64))
        } else {
            Ok((mem32(m, header_addr)->0, mem64(m, (header_addr + 8) as u64)->0, next))
        }
    }
}

/// The request chain starting at descriptor `head` of the queue at `queue`,
/// checked in the order the device reads it.
pub open spec fn request_plan(m: Seq<u8>, queue: u64, head: u16, queue_num: u16) -> core::result::Result<RequestPlan, RequestFault> {
    match header_plan(m, queue, head) {
        Err(f) => Err(f),
        Ok((request_type, sector, next)) => {
            let pd = descriptor(queue, next);
            if mem64(m, pd) is None {
                Err(RequestFault::OutOfRange(pd))
            } else if mem32(m, (pd + 8) as u64) is None {
                Err(RequestFault::OutOfRange((pd + 8) as u64))
            } else if mem16(m, (pd + 12) as u64) is None {
                Err(RequestFault::OutOfRange((pd + 12) as u64))
            } else if mem16(m, (pd + 14) as u64) is None {
                Err(RequestFault::OutOfRange((pd + 14) as u64))
            } else {
                let payload_flags = mem16(m, (pd + 12) as u64)->0;
                let status_next = mem16(m, (pd + 14) as u64)->0;
                if payload_flags & DESC_NEXT == 0 || status_next >= queue_num {
                    Err(RequestFault::BadStatusDescriptor)
                } else if mem64(m, descriptor(queue, status_next)) is None {
                    Err(RequestFault::OutOfRange(descriptor(queue, status_next)))
                } else if mem64(m, descriptor(queue, status_next))->0 == 0 {
                    Err(RequestFault::NullStatus)
                } else if request_type == 0 && payload_flags & DESC_WRITE == 0 {
                    Err(RequestFault::ReadOnlyBuffer)
                } else if request_type == 1 && payload_flags & DESC_WRITE != 0 {
                    Err(RequestFault::WritableBuffer)
                } else {
                    Ok(
                        RequestPlan {
                            request_type,
                            sector,
                            payload_addr: mem64(m, pd)->0,
                            payload_len: mem32(m, (pd + 8) as u64)->0,
                            payload_flags,
                            status_addr: mem64(m, descriptor(queue, status_next))->0,
                        },
                    )
                }
            }
        },
    }
}

/// The largest table address a 32-bit page frame number can name.
pub open spec fn queue_in_reach(queue: u64) -> bool {
    queue <= 0xffff_ffffu64 * 4096
}

fn disk_fault(msg: &str) -> (e: LiteDroidError)
    ensures
        e matches LiteDroidError::DiskIo(m) && m@ == msg@,
{
    LiteDroidError::DiskIo(String::from_str(msg))
}

/// Read the request chain at descriptor `head`, checking it as the device
/// does before it touches the disk.
pub fn parse_request(memory: &GuestMemory, queue: u64, head: u16, queue_num: u16) -> (r: Result<RequestPlan>)
    requires
        queue_in_reach(queue),
    ensures
        request_plan(memory@, queue, head, queue_num) matches Ok(p) ==> r == Ok::<RequestPlan, LiteDroidError>(p),
        request_plan(memory@, queue, head, queue_num) matches Err(f) ==> (r matches Err(e) && fault_error(f, e)),
{
    proof {
        reveal_strlit("virtio request has no data descriptor");
        reveal_strlit("virtio request has invalid status descriptor");
        reveal_strlit("virtio status address is null");
        reveal_strlit("virtio read buffer is not writable");
        reveal_strlit("virtio write buffer is not readable");
    }
    let desc = queue + (head as u64) * 16;
    let header_addr = guest_u64(memory, desc)?;
    let header_flags = guest_u16(memory, desc + 12)?;
    let header_next = guest_u16(memory, desc + 14)?;
    if header_flags & DESC_NEXT == 0 {
        return Err(disk_fault("virtio request has no data descriptor"));
    }
    let request_type = guest_u32(memory, header_addr)?;
    let sector_addr = match header_addr.checked_add(8) {
        Some(a) => a,
        None => return Err(LiteDroidError::GuestAddressOutOfRange { address: header_addr }),
    };
    let sector = guest_u64(memory, sector_addr)?;
    let payload_desc = queue + (header_next as u64) * 16;
    let payload_addr = guest_u64(memory, payload_desc)?;
    let payload_len = guest_u32(memory, payload_desc + 8)?;
    let payload_flags = guest_u16(memory, payload_desc + 12)?;
    let status_next = guest_u16(memory, payload_desc + 14)?;
    if payload_flags & DESC_NEXT == 0 || status_next as u64 >= queue_num as u64 {
        return Err(disk_fault("virtio request has invalid status descriptor"));
    }
    let status_desc = queue + (status_next as u64) * 16;
    let status_addr = guest_u64(memory, status_desc)?;
    if status_addr == 0 {
        return Err(disk_fault("virtio status address is null"));
    }
    if request_type == 0 && payload_flags & DESC_WRITE == 0 {
        return Err(disk_fault("virtio read buffer is not writable"));
    }
    if request_type == 1 && payload_flags & DESC_WRITE != 0 {
        return Err(disk_fault("virtio write buffer is not readable"));
    }
    Ok(RequestPlan { request_type, sector, payload_addr, payload_len, payload_flags, status_addr })
}

/// The byte offset and length on the disk that request `p` covers: its
/// sector times 512 and its payload length; refused when the offset does
/// not fit in 64 bits.
pub fn disk_range(p: &RequestPlan) -> (r: Result<(u64, usize)>)
    ensures
        p.sector * 512 <= u64::MAX ==> r == Ok::<(u64, usize), LiteDroidError>(
            ((p.sector * 512) as u64, p.payload_len as usize),
        ),
        p.sector * 512 > u64::MAX ==> (r matches Err(LiteDroidError::DiskIo(m)) && m@
            == "virtio request sector is out of range"@),
{
    match p.sector.checked_mul(512) {
        Some(offset) => Ok((offset, p.payload_len as usize)),
        None => Err(disk_fault("virtio request sector is out of range")),
    }
}

/// The data phase of read request `p`, given what the disk returned for
/// it: a disk error is passed on with memory untouched; otherwise the first
/// `payload_len` bytes read (all of them when fewer) go to the payload
/// address, and the status to report is 0.
pub fn place_disk_read(memory: &mut GuestMemory, p: &RequestPlan, read: Result<Vec<u8>>) -> (r: Result<u8>)
    ensures
        final(memory)@.len() == old(memory)@.len(),
        read matches Err(e) ==> r == Err::<u8, LiteDroidError>(e) && final(memory)@ == old(memory)@,
        read matches Ok(d) ==> {
            let n = if d@.len() < p.payload_len { d@.len() } else { p.payload_len as nat };
            &&& (r is Ok <==> range_fits(p.payload_addr, n, old(memory)@.len()))
            &&& r is Ok ==> r == Ok::<u8, LiteDroidError>(0) && final(memory)@ == splice(
                old(memory)@,
                p.payload_addr as int,
                d@.take(n as int),
            )
            &&& r is Err ==> r == Err::<u8, LiteDroidError>(
                LiteDroidError::GuestAddressOutOfRange { address: p.payload_addr },
            ) && final(memory)@ == old(memory)@
        },
{
    match read {
        Err(e) => Err(e),
        Ok(data) => {
            let payload_len = p.payload_len as usize;
            let n = if data.len() < payload_len { data.len() } else { payload_len };
            let part = copy_range(data.as_slice(), 0, n);
            assert(part@ =~= data@.take(n as int));
            match memory.write_guest(p.payload_addr, part.as_slice()) {
                Ok(()) => Ok(0),
                Err(e) => Err(e),
            }
        },
    }
}

/// The status to report for write request data the disk was given: 0 once
/// the disk took it; a disk error is passed on.
pub fn disk_write_status(written: Result<usize>) -> (r: Result<u8>)
    ensures
        written matches Err(e) ==> r == Err::<u8, LiteDroidError>(e),
        written is Ok ==> r == Ok::<u8, LiteDroidError>(0),
{
    match written {
        Ok(_) => Ok(0),
        Err(e) => Err(e),
    }
}

/// Report status `status` for request `p` (chain head `head`) and add the
/// chain to the used ring, as `complete_request` says.
fn complete_in_memory(memory: &mut GuestMemory, p: &RequestPlan, status: u8, queue: u64, head: u16, queue_num: u16) -> (r: Result<()>)
    requires
        queue_in_reach(queue),
        queue_num > 0,
        status == request_status(p.request_type),
    ensures
        final(memory)@.len() == old(memory)@.len(),
        r is Ok <==> complete_request(old(memory)@, *p, queue, head, queue_num) is Some,
        r is Ok ==> complete_request(old(memory)@, *p, queue, head, queue_num) == Some(final(memory)@),
{
    let ghost m1 = memory@;
    let status_byte = vec![status];
    memory.write_guest(p.status_addr, status_byte.as_slice())?;
    assert(status_byte@ =~= seq![request_status(p.request_type)]);
    let qn = queue_num as u64;
    let used = align_up(queue + 16 * qn + 4 + 2 * qn, 4096);
    proof {
        let v = (queue + 16 * qn + 4 + 2 * qn) as u64;
        assert(align_up_spec(v, 4096) <= v + 4095) by (bit_vector);
    }
    let used_idx = guest_u16(memory, used + 2)?;
    let slot = (used_idx % queue_num) as u64;
    let elem = used + 4 + slot * 8;
    let id = u32_to_le(head as u32);
    memory.write_guest(elem, id.as_slice())?;
    let len = u32_to_le(p.payload_len);
    memory.write_guest(used + 8 + slot * 8, len.as_slice())?;
    let next = u16_to_le(used_idx.wrapping_add(1));
    memory.write_guest(used + 2, next.as_slice())?;
    Ok(())
}

/// Whether read request `p` was served as the disk answered `rd`: a disk
/// error is passed on with memory untouched; data `d` has its first
/// `payload_len` bytes (all of them when fewer) placed at the payload
/// address, after which the request completes as `complete_request` says,
/// and the call succeeds exactly when both fit in memory.
pub open spec fn read_served(
    m0: Seq<u8>,
    m: Seq<u8>,
    r: Result<()>,
    rd: Result<Vec<u8>>,
    p: RequestPlan,
    queue: u64,
    head: u16,
    queue_num: u16,
) -> bool {
    match rd {
        Err(e) => r == Err::<(), LiteDroidError>(e) && m == m0,
        Ok(d) => {
            let n = if d@.len() < p.payload_len { d@.len() } else { p.payload_len as nat };
            let m1 = splice(m0, p.payload_addr as int, d@.take(n as int));
            &&& (r is Ok <==> range_fits(p.payload_addr, n, m0.len()) && complete_request(m1, p, queue, head, queue_num) is Some)
            &&& (r is Ok ==> complete_request(m1, p, queue, head, queue_num) == Some(m))
        },
    }
}

/// Whether write request `p` was served as the disk answered `w` to the
/// payload: a disk error is passed on with memory untouched; once the disk
/// took the data, the request completes as `complete_request` says and the
/// call succeeds exactly when that fits in memory.
pub open spec fn write_served(
    m0: Seq<u8>,
    m: Seq<u8>,
    r: Result<()>,
    w: Result<usize>,
    p: RequestPlan,
    queue: u64,
    head: u16,
    queue_num: u16,
) -> bool {
    match w {
        Err(e) => r == Err::<(), LiteDroidError>(e) && m == m0,
        Ok(_) => {
            &&& (r is Ok <==> complete_request(m0, p, queue, head, queue_num) is Some)
            &&& (r is Ok ==> complete_request(m0, p, queue, head, queue_num) == Some(m))
        },
    }
}

/// The status byte the device reports for a request of `request_type`:
/// 0 for a served read or write, 1 for an unsupported type.
pub open spec fn request_status(request_type: u32) -> u8 {
    if request_type == 0 || request_type == 1 {
        0
    } else {
        1
    }
}

/// The used ring of a legacy virtqueue of `queue_num` entries at `queue`:
/// it follows the descriptor table and the available ring, page-aligned.
pub open spec fn used_ring(queue: u64, queue_num: u16) -> u64 {
    align_up_spec((queue + 16 * queue_num + 4 + 2 * queue_num) as u64, 4096)
}

/// `index + 1`, wrapping at 2^16.
pub open spec fn next_index(index: u16) -> u16 {
    if index == 0xffff {
        0
    } else {
        (index + 1) as u16
    }
}

/// Whether `m1` is `m0` after the data phase of request `p`: a read
/// request places at most `payload_len` bytes from the disk at the payload
/// address; other requests leave memory as it was.
pub open spec fn payload_written(m0: Seq<u8>, m1: Seq<u8>, p: RequestPlan) -> bool {
    if p.request_type == 0 {
        exists|data: Seq<u8>|
            data.len() <= p.payload_len && m1 == #[trigger] splice(m0, p.payload_addr as int, data)
    } else {
        m1 == m0
    }
}

/// Guest memory once request `p` (chain head `head`) is completed from
/// `m1`: its status byte written, then its element added to the used ring
/// (descriptor id, then length) and the ring's index advanced; `None` when
/// one of these lies outside memory.
pub open spec fn complete_request(m1: Seq<u8>, p: RequestPlan, queue: u64, head: u16, queue_num: u16) -> Option<
    Seq<u8>,
> {
    if !range_fits(p.status_addr, 1, m1.len()) {
        None
    } else {
        let m2 = splice(m1, p.status_addr as int, seq![request_status(p.request_type)]);
        let used = used_ring(queue, queue_num);
        match mem16(m2, (used + 2) as u64) {
            None => None,
            Some(idx) => {
                let elem = (used + 4 + (idx % queue_num) * 8) as u64;
                if !range_fits(elem, 4, m2.len()) || !range_fits((elem + 4) as u64, 4, m2.len()) {
                    None
                } else {
                    let m3 = splice(m2, elem as int, le32(head as u32));
                    let m4 = splice(m3, elem + 4, le32(p.payload_len));
                    Some(splice(m4, used + 2, le16(next_index(idx))))
                }
            },
        }
    }
}

/// The virtio-mmio block device that the VMM exposes to its guest.
pub struct VirtioBlock {
    disk: Box<dyn BlockBackend>,
    disk_size: u64,
    queue_num: u16,
    queue_pfn: u32,
    status: u32,
    last_avail: u16,
}

/// The value of block register `offset` of a device over an image of
/// `disk_size` bytes; 0x100 holds the capacity in whole sectors.
pub open spec fn vblk_register(offset: u64, queue_num: u16, queue_pfn: u32, status: u32, disk_size: u64) -> u64 {
    if offset == 0x100 {
        disk_size / SECTOR_SIZE
    } else if offset == 0x00 {
        VIRTIO_MAGIC as u64
    } else if offset == 0x04 {
        2
    } else if offset == 0x08 {
        VIRTIO_BLK as u64
    } else if offset == 0x34 || offset == 0x38 {
        queue_num as u64
    } else if offset == 0x3c {
        4096
    } else if offset == 0x40 {
        queue_pfn as u64
    } else if offset == 0x60 {
        status as u64
    } else {
        0
    }
}

/// The low `size` bytes of `v` (all of it from 8 bytes on).
pub open spec fn low_bytes(v: u64, size: usize) -> u64 {
    if size >= 8 {
        v
    } else {
        v & (((1u64 << ((size * 8) as u64)) - 1) as u64)
    }
}

/// The guest address of the queue whose page frame number is `pfn`.
pub open spec fn queue_address(pfn: u32) -> u64 {
    (pfn * 4096) as u64
}

impl VirtioBlock {
    pub closed spec fn queue_num(&self) -> u16 {
        self.queue_num
    }

    pub closed spec fn queue_pfn(&self) -> u32 {
        self.queue_pfn
    }

    pub closed spec fn status(&self) -> u32 {
        self.status
    }

    /// The available-ring index up to which requests have been served.
    pub closed spec fn last_avail(&self) -> u16 {
        self.last_avail
    }

    /// Whether `r` is an answer the device's disk image may give to a read
    /// of `len` bytes at byte `offset` (see `BlockBackend::read_answer`).
    pub closed spec fn disk_reads(&self, offset: u64, len: usize, r: Result<Vec<u8>>) -> bool {
        self.disk.read_answer(offset, len, r)
    }

    /// Whether `r` is an answer the device's disk image may give to a write
    /// of `data` at byte `offset` (see `BlockBackend::write_answer`).
    pub closed spec fn disk_writes(&self, offset: u64, data: Seq<u8>, r: Result<usize>) -> bool {
        self.disk.write_answer(offset, data, r)
    }

    /// The image size in bytes, as the disk reported it when the device was
    /// made (an image keeps its size once opened).
    pub closed spec fn disk_size(&self) -> u64 {
        self.disk_size
    }

    /// A device over `disk` with a 128-entry queue, not yet configured.
    pub fn new(disk: Box<dyn BlockBackend>) -> (b: Self)
        ensures
            b.queue_num() == QUEUE_NUM_MAX,
            b.queue_pfn() == 0,
            b.status() == 0,
            b.last_avail() == 0,
    {
        let disk_size = disk.size();
        VirtioBlock { disk, disk_size, queue_num: QUEUE_NUM_MAX, queue_pfn: 0, status: 0, last_avail: 0 }
    }

    /// The low `size` bytes of register `offset`.
    pub fn read(&self, offset: u64, size: usize) -> (v: u64)
        ensures
            v == low_bytes(
                vblk_register(offset, self.queue_num(), self.queue_pfn(), self.status(), self.disk_size()),
                size,
            ),
    {
        let value: u64 = match offset {
            0x00 => VIRTIO_MAGIC as u64,
            0x04 => 2,
            0x08 => VIRTIO_BLK as u64,
            0x0c => 0,
            0x10 => 0,
            0x34 => self.queue_num as u64,
            0x38 => self.queue_num as u64,
            0x3c => 4096,
            0x40 => self.queue_pfn as u64,
            0x60 => self.status as u64,
            0x64 => 0,
            0x100 => sectors(self.disk_size),
            _ => 0,
        };
        if size >= 8 {
            value
        } else {
            let shift = (size * 8) as u64;
            assert((1u64 << shift) >= 1) by (bit_vector)
                requires
                    shift < 64,
            ;
            value & ((1u64 << shift) - 1)
        }
    }

    /// Serve the request chain at descriptor `head`: read the sectors into
    /// the guest's buffer or write its buffer to the disk, then report the
    /// status and add the chain to the used ring.
    pub fn process_request(&self, memory: &mut GuestMemory, queue: u64, head: u16) -> (r: Result<()>)
        requires
            queue_in_reach(queue),
            self.queue_num() > 0,
        ensures
            final(memory)@.len() == old(memory)@.len(),
            request_plan(old(memory)@, queue, head, self.queue_num()) matches Err(f) ==> (r matches Err(e)
                && fault_error(f, e) && final(memory)@ == old(memory)@),
            r is Ok ==> (request_plan(old(memory)@, queue, head, self.queue_num()) matches Ok(p) && exists|
                m1: Seq<u8>,
            |
                #[trigger] payload_written(old(memory)@, m1, p) && complete_request(m1, p, queue, head, self.queue_num())
                    == Some(final(memory)@)),
            request_plan(old(memory)@, queue, head, self.queue_num()) matches Ok(p) ==> (p.request_type != 0
                && p.request_type != 1 ==> (r is Ok <==> complete_request(old(memory)@, p, queue, head, self.queue_num()) is Some)
                && (r is Ok ==> complete_request(old(memory)@, p, queue, head, self.queue_num()) == Some(final(memory)@))),
            request_plan(old(memory)@, queue, head, self.queue_num()) matches Ok(p) ==> ((p.request_type == 0
                || p.request_type == 1) && p.sector * 512 > u64::MAX ==> (r matches Err(LiteDroidError::DiskIo(m)) && m@
                == "virtio request sector is out of range"@ && final(memory)@ == old(memory)@)),
            request_plan(old(memory)@, queue, head, self.queue_num()) matches Ok(p) ==> (p.request_type == 0
                && p.sector * 512 <= u64::MAX ==> exists|rd: Result<Vec<u8>>|
                #[trigger] self.disk_reads((p.sector * 512) as u64, p.payload_len as usize, rd)
                    && read_served(old(memory)@, final(memory)@, r, rd, p, queue, head, self.queue_num())),
            request_plan(old(memory)@, queue, head, self.queue_num()) matches Ok(p) ==> (p.request_type == 1
                && p.sector * 512 <= u64::MAX && !range_fits(p.payload_addr, p.payload_len as nat, old(memory)@.len())
                ==> r == Err::<(), LiteDroidError>(LiteDroidError::GuestAddressOutOfRange { address: p.payload_addr })
                && final(memory)@ == old(memory)@),
            request_plan(old(memory)@, queue, head, self.queue_num()) matches Ok(p) ==> (p.request_type == 1
                && p.sector * 512 <= u64::MAX && range_fits(p.payload_addr, p.payload_len as nat, old(memory)@.len())
                ==> exists|w: Result<usize>|
                #[trigger] self.disk_writes(
                    (p.sector * 512) as u64,
                    old(memory)@.subrange(p.payload_addr as int, p.payload_addr + p.payload_len),
                    w,
                ) && write_served(old(memory)@, final(memory)@, r, w, p, queue, head, self.queue_num())),
    {
        let ghost m0 = memory@;
        let p = parse_request(memory, queue, head, self.queue_num)?;
        if p.request_type == 0 || p.request_type == 1 {
            let (offset, payload_len) = disk_range(&p)?;
            if p.request_type == 0 {
                let read = self.disk.read_at(offset, payload_len);
                let ghost rd = read;
                let r = match place_disk_read(memory, &p, read) {
                    Err(e) => Err(e),
                    Ok(s) => {
                        let ghost mid = memory@;
                        proof {
                            let d = rd->Ok_0;
                            let n = if d@.len() < p.payload_len { d@.len() } else { p.payload_len as nat };
                            assert(payload_written(m0, mid, p)) by {
                                assert(mid == splice(m0, p.payload_addr as int, d@.take(n as int)));
                            }
                        }
                        let r = complete_in_memory(memory, &p, s, queue, head, self.queue_num);
                        proof {
                            if r is Ok {
                                assert(payload_written(m0, mid, p) && complete_request(mid, p, queue, head, self.queue_num)
                                    == Some(memory@));
                            }
                        }
                        r
                    },
                };
                proof {
                    assert(self.disk_reads(offset, payload_len, rd));
                    assert(read_served(m0, memory@, r, rd, p, queue, head, self.queue_num));
                }
                r
            } else {
                let mut payload = vec![0u8; payload_len];
                match memory.read_guest(p.payload_addr, payload.as_mut_slice()) {
                    Err(e) => return Err(e),
                    Ok(()) => {},
                }
                let written = self.disk.write_at(offset, payload.as_slice());
                let ghost w = written;
                let r = match disk_write_status(written) {
                    Err(e) => Err(e),
                    Ok(s) => complete_in_memory(memory, &p, s, queue, head, self.queue_num),
                };
                proof {
                    if r is Ok {
                        assert(payload_written(m0, m0, p) && complete_request(m0, p, queue, head, self.queue_num)
                            == Some(memory@));
                    }
                }
                proof {
                    assert(self.disk_writes(
                        offset,
                        m0.subrange(p.payload_addr as int, p.payload_addr + p.payload_len),
                        w,
                    ));
                    assert(write_served(m0, memory@, r, w, p, queue, head, self.queue_num));
                }
                r
            }
        } else {
            let r = complete_in_memory(memory, &p, 1, queue, head, self.queue_num);
            proof {
                if r is Ok {
                    assert(payload_written(m0, m0, p) && complete_request(m0, p, queue, head, self.queue_num)
                        == Some(memory@));
                }
            }
            r
        }
    }

    /// Serve every request the guest has made available since the last
    /// notification, in ring order, stopping at the first that fails.
    ///
    /// A queue of size zero cannot hold a request: one made available there
    /// is refused.
    pub fn process_queue(&mut self, memory: &mut GuestMemory) -> (r: Result<()>)
        ensures
            final(self).queue_num() == old(self).queue_num(),
            final(self).queue_pfn() == old(self).queue_pfn(),
            final(self).status() == old(self).status(),
            final(self).disk_size() == old(self).disk_size(),
            final(memory)@.len() == old(memory)@.len(),
            mem16(old(memory)@, (queue_address(old(self).queue_pfn()) + 2) as u64) is None ==> r == Err::<
                (),
                LiteDroidError,
            >(
                LiteDroidError::GuestAddressOutOfRange {
                    address: (queue_address(old(self).queue_pfn()) + 2) as u64,
                },
            ) && final(memory)@ == old(memory)@ && final(self).last_avail() == old(self).last_avail(),
            mem16(old(memory)@, (queue_address(old(self).queue_pfn()) + 2) as u64) == Some(old(self).last_avail())
                ==> r is Ok && final(memory)@ == old(memory)@ && final(self).last_avail() == old(self).last_avail(),
            r is Ok ==> mem16(old(memory)@, (queue_address(old(self).queue_pfn()) + 2) as u64) == Some(
                final(self).last_avail(),
            ),
    {
        let queue = (self.queue_pfn as u64) * 4096;
        let avail_idx = guest_u16(memory, queue + 2)?;
        while self.last_avail != avail_idx
            invariant
                self.queue_num == old(self).queue_num(),
                self.queue_pfn == old(self).queue_pfn(),
                self.status == old(self).status(),
                self.disk_size == old(self).disk_size(),
                queue == queue_address(self.queue_pfn),
                queue_in_reach(queue),
                memory@.len() == old(memory)@.len(),
                mem16(old(memory)@, (queue + 2) as u64) == Some(avail_idx),
                avail_idx == old(self).last_avail() ==> self.last_avail == old(self).last_avail() && memory@ == old(
                    memory,
                )@,
            decreases (if avail_idx >= self.last_avail {
                avail_idx - self.last_avail
            } else {
                avail_idx - self.last_avail + 0x10000
            }),
        {
            if self.queue_num == 0 {
                return Err(disk_fault("virtio queue size is zero"));
            }
            let slot = (self.last_avail % self.queue_num) as u64;
            let head = guest_u16(memory, queue + 4 + slot * 2)?;
            self.process_request(memory, queue, head)?;
            self.last_avail = self.last_avail.wrapping_add(1);
        }
        Ok(())
    }

    /// A guest write to register `offset`: 0x38 sets the queue size (at
    /// most 128), 0x40 the queue's page frame, 0x60 the status; a zero
    /// written to 0x50 once the queue is placed serves the queue. Other
    /// writes change nothing.
    pub fn write(&mut self, offset: u64, _size: u8, value: u64, memory: &mut GuestMemory) -> (r: Result<()>)
        ensures
            final(self).queue_num() == (if offset == 0x38 {
                if (value as u16) < QUEUE_NUM_MAX {
                    value as u16
                } else {
                    QUEUE_NUM_MAX
                }
            } else {
                old(self).queue_num()
            }),
            final(self).queue_pfn() == (if offset == 0x40 {
                value as u32
            } else {
                old(self).queue_pfn()
            }),
            final(self).status() == (if offset == 0x60 {
                value as u32
            } else {
                old(self).status()
            }),
            final(self).disk_size() == old(self).disk_size(),
            final(memory)@.len() == old(memory)@.len(),
            !(offset == 0x50 && value == 0 && old(self).queue_pfn() != 0) ==> r is Ok && final(memory)@ == old(
                memory,
            )@ && final(self).last_avail() == old(self).last_avail(),
            (offset == 0x50 && value == 0 && old(self).queue_pfn() != 0 && r is Ok) ==> mem16(
                old(memory)@,
                (queue_address(old(self).queue_pfn()) + 2) as u64,
            ) == Some(final(self).last_avail()),
    {
        if offset == 0x38 {
            let n = value as u16;
            self.queue_num = if n < QUEUE_NUM_MAX {
                n
            } else {
                QUEUE_NUM_MAX
            };
        } else if offset == 0x40 {
            self.queue_pfn = value as u32;
        } else if offset == 0x50 {
            if value == 0 && self.queue_pfn != 0 {
                return self.process_queue(memory);
            }
        } else if offset == 0x60 {
            self.status = value as u32;
        }
        Ok(())
    }
}

/// The queue size a guest writes to register 0x38 is what it reads back
/// there, capped at 128, for any read of two bytes or more.
pub proof fn lemma_queue_size_readback(value: u64, queue_pfn: u32, status: u32, disk_size: u64, size: usize)
    requires
        size >= 2,
    ensures
        low_bytes(
            vblk_register(
                0x38,
                if (value as u16) < QUEUE_NUM_MAX { value as u16 } else { QUEUE_NUM_MAX },
                queue_pfn,
                status,
                disk_size,
            ),
            size,
        ) == (if (value as u16) < QUEUE_NUM_MAX { value as u16 } else { QUEUE_NUM_MAX }) as u64,
{
    let n = (if (value as u16) < QUEUE_NUM_MAX { value as u16 } else { QUEUE_NUM_MAX }) as u64;
    if size < 8 {
        let s = (size * 8) as u64;
        assert(n < 65536 && 16 <= s && s < 64 ==> n & (((1u64 << s) - 1) as u64) == n) by (bit_vector);
    }
}

/// A read request served from an in-memory image copies the image's bytes:
/// the `payload_len` bytes from byte `sector * 512` on (all of a 4 KiB read,
/// not a prefix of it) land at the payload address before the request is
/// completed, when the image holds them.
pub proof fn lemma_read_request_copies_image(
    image: ReadOnlyImage,
    p: RequestPlan,
    rd: Result<Vec<u8>>,
    m0: Seq<u8>,
    m: Seq<u8>,
    r: Result<()>,
    queue: u64,
    head: u16,
    queue_num: u16,
)
    requires
        p.sector * 512 <= u64::MAX,
        p.sector * 512 + p.payload_len <= image.contents().len(),
        image.read_answer((p.sector * 512) as u64, p.payload_len as usize, rd),
        read_served(m0, m, r, rd, p, queue, head, queue_num),
        r is Ok,
    ensures
        complete_request(
            splice(
                m0,
                p.payload_addr as int,
                image.contents().subrange(p.sector * 512, p.sector * 512 + p.payload_len),
            ),
            p,
            queue,
            head,
            queue_num,
        ) == Some(m),
{
    let d = rd->Ok_0;
    assert(d@ == image_slice(image.contents(), (p.sector * 512) as u64, p.payload_len as usize));
    assert(d@.len() == p.payload_len);
    assert(d@.take(p.payload_len as int) =~= image.contents().subrange(p.sector * 512, p.sector * 512 + p.payload_len));
}

} // verus!
