//! Disk images as the virtio block devices see them.
use vstd::prelude::*;

use crate::devices::{VirtDevice, VIRTIO_MAGIC, VIRTIO_VERSION_2};
use crate::error::Result;

verus! {

pub const SECTOR_SIZE: u64 = 512;

pub const VIRTIO_ID_BLOCK: u32 = 2;

/// Positional access to the bytes of a disk image.
///
/// What an image holds is outside the library. An image may describe its
/// answers to reads and writes with `read_answer` and `write_answer`; one
/// that does not describes nothing (every answer is allowed), and callers
/// state what they asked of it in these terms.
pub trait BlockBackend: Send + Sync {
    /// Whether `r` is an answer the image may give to a read of `len` bytes
    /// from byte `offset` on.
    closed spec fn read_answer(&self, offset: u64, len: usize, r: Result<Vec<u8>>) -> bool {
        true
    }

    /// Whether `r` is an answer the image may give to a write of `data` at
    /// byte `offset`.
    closed spec fn write_answer(&self, offset: u64, data: Seq<u8>, r: Result<usize>) -> bool {
        true
    }

    /// Up to `len` bytes read from byte `offset` on.
    fn read_at(&self, offset: u64, len: usize) -> (r: Result<Vec<u8>>)
        ensures
            self.read_answer(offset, len, r),
    ;

    /// Writes `data` at byte `offset`; the number of bytes written.
    fn write_at(&self, offset: u64, data: &[u8]) -> (r: Result<usize>)
        ensures
            self.write_answer(offset, data@, r),
    ;

    /// Total size of the image in bytes.
    fn size(&self) -> u64;
}

/// The bytes of `image` from `offset` on, at most `len` of them.
pub open spec fn image_slice(image: Seq<u8>, offset: u64, len: usize) -> Seq<u8> {
    if offset >= image.len() {
        seq![]
    } else if offset + len <= image.len() {
        image.subrange(offset as int, offset + len)
    } else {
        image.subrange(offset as int, image.len() as int)
    }
}

/// A read-only disk image held in memory (a system image served as is).
pub struct ReadOnlyImage {
    bytes: Vec<u8>,
}

impl ReadOnlyImage {
    /// The bytes of the image.
    pub closed spec fn contents(&self) -> Seq<u8> {
        self.bytes@
    }

    /// An image holding `bytes`.
    pub fn new(bytes: Vec<u8>) -> (d: Self)
        ensures
            d.contents() == bytes@,
    {
        ReadOnlyImage { bytes }
    }
}

impl BlockBackend for ReadOnlyImage {
    /// A read gives the image's bytes from `offset` on, at most `len`.
    open spec fn read_answer(&self, offset: u64, len: usize, r: Result<Vec<u8>>) -> bool {
        r matches Ok(d) && d@ == image_slice(self.contents(), offset, len)
    }

    /// Every write is refused.
    open spec fn write_answer(&self, offset: u64, data: Seq<u8>, r: Result<usize>) -> bool {
        r matches Err(crate::error::LiteDroidError::DiskIo(m)) && m@ == "disk image is read-only"@
    }

    fn read_at(&self, offset: u64, len: usize) -> (r: Result<Vec<u8>>) {
        let n = self.bytes.len();
        if offset >= n as u64 {
            return Ok(Vec::new());
        }
        let start = offset as usize;
        let end = if len <= n - start { start + len } else { n };
        Ok(crate::seqs::copy_range(self.bytes.as_slice(), start, end))
    }

    fn write_at(&self, offset: u64, data: &[u8]) -> (r: Result<usize>) {
        Err(crate::error::LiteDroidError::DiskIo(String::from_str("disk image is read-only")))
    }

    fn size(&self) -> u64 {
        self.bytes.len() as u64
    }
}

/// Number of whole 512-byte sectors in an image of `size_bytes` bytes.
pub fn sectors(size_bytes: u64) -> (n: u64)
    ensures
        n == size_bytes / SECTOR_SIZE,
{
    size_bytes / SECTOR_SIZE
}

/// The value of virtio-blk register `offset` of a device over an image of
/// `disk_size` bytes; 0x100 holds the capacity in whole sectors.
pub open spec fn blk_register(offset: u64, status: u32, disk_size: u64) -> u64 {
    if offset == 0x100 {
        disk_size / SECTOR_SIZE
    } else if offset == 0x00 {
        VIRTIO_MAGIC as u64
    } else if offset == 0x04 {
        VIRTIO_VERSION_2 as u64
    } else if offset == 0x08 {
        VIRTIO_ID_BLOCK as u64
    } else if offset == 0x24 {
        1
    } else if offset == 0x30 {
        status as u64
    } else {
        0
    }
}

/// Virtio block device wrapping a disk image.
pub struct VirtioBlkDevice {
    disk: Box<dyn BlockBackend>,
    disk_size: u64,
    status: u32,
}

impl VirtioBlkDevice {
    /// The device status register.
    pub closed spec fn status(&self) -> u32 {
        self.status
    }

    /// The image size in bytes, as the disk reported it when the device was
    /// made (an image keeps its size once opened).
    pub closed spec fn disk_size(&self) -> u64 {
        self.disk_size
    }

    pub fn new(disk: Box<dyn BlockBackend>) -> (d: Self)
        ensures
            d.status() == 0,
    {
        let disk_size = disk.size();
        VirtioBlkDevice { disk, disk_size, status: 0 }
    }
}

impl VirtDevice for VirtioBlkDevice {
    open spec fn answers(&self, offset: u64, size: u32, v: u64) -> bool {
        v == blk_register(offset, self.status(), self.disk_size())
    }

    open spec fn shows_write(&self, offset: u64, value: u64) -> bool {
        offset == 0x30 ==> self.status() == value as u32
    }

    open spec fn is_reset(&self) -> bool {
        self.status() == 0
    }

    fn name(&self) -> (s: &str)
        ensures
            s@ == "virtio-blk"@,
    {
        "virtio-blk"
    }

    fn device_type(&self) -> (s: &str)
        ensures
            s@ == "block"@,
    {
        "block"
    }

    /// The value of register `offset`, as `blk_register` gives it.
    fn mmio_read(&mut self, offset: u64, _size: u32) -> (v: u64)
        ensures
            v == blk_register(offset, old(self).status(), old(self).disk_size()),
            final(self).status() == old(self).status(),
            final(self).disk_size() == old(self).disk_size(),
    {
        match offset {
            0x00 => VIRTIO_MAGIC as u64,
            0x04 => VIRTIO_VERSION_2 as u64,
            0x08 => VIRTIO_ID_BLOCK as u64,
            0x0c => 0,
            0x24 => 1,
            0x30 => self.status as u64,
            0x100 => sectors(self.disk_size),
            _ => 0,
        }
    }

    /// A write to 0x30 sets the status register (truncated to 32 bits); a
    /// queue notification (0x28) and every other write change nothing.
    fn mmio_write(&mut self, offset: u64, _size: u32, value: u64)
        ensures
            final(self).status() == (if offset == 0x30 { value as u32 } else { old(self).status() }),
            final(self).disk_size() == old(self).disk_size(),
    {
        if offset == 0x30 {
            self.status = value as u32;
        }
    }

    fn reset(&mut self)
        ensures
            final(self).status() == 0,
            final(self).disk_size() == old(self).disk_size(),
    {
        self.status = 0;
    }

    fn device_tree_compatible(&self) -> (s: &str)
        ensures
            s@ == "virtio,block"@,
    {
        "virtio,block"
    }
}

} // verus!
