//! Guest physical memory: one contiguous, zero-initialised region whose
//! reads and writes are bounds-checked against its size.
use vstd::prelude::*;
use vstd::string::StrSliceExecFns;

use crate::error::{LiteDroidError, Result};
use crate::seqs::splice;
use crate::text::{decimal, u64_to_decimal};

verus! {

/// A contiguous region of guest physical memory.
pub struct GuestMemory {
    bytes: Vec<u8>,
}

impl View for GuestMemory {
    type V = Seq<u8>;

    /// The bytes of guest RAM, address 0 first.
    closed spec fn view(&self) -> Seq<u8> {
        self.bytes@
    }
}

/// Whether `[addr, addr + len)` lies inside a region of `size` bytes, with
/// the end computed without 64-bit overflow.
pub open spec fn range_fits(addr: u64, len: nat, size: nat) -> bool {
    addr + len <= u64::MAX && addr + len <= size
}

impl GuestMemory {
    /// Allocate `size_bytes` bytes of zeroed guest RAM.
    ///
    /// A zero size is refused as an allocation failure; a size that the host
    /// cannot address is refused as a mapping failure.
    pub fn new(size_bytes: u64) -> (r: Result<Self>)
        ensures
            size_bytes == 0 ==> (r matches Err(LiteDroidError::MemoryAllocationFailed { requested_mb, available_mb })
                && requested_mb == 0 && available_mb == 0),
            (size_bytes > 0 && size_bytes <= usize::MAX) ==> (r matches Ok(m) && m@ == Seq::new(
                size_bytes as nat,
                |i: int| 0u8,
            )),
            size_bytes > usize::MAX ==> (r matches Err(LiteDroidError::MemoryMapFailed(msg)) && msg@
                == "mmap failed for "@ + decimal(size_bytes as nat) + " bytes"@),
    {
        if size_bytes == 0 {
            return Err(LiteDroidError::MemoryAllocationFailed { requested_mb: 0, available_mb: 0 });
        }
        if size_bytes > usize::MAX as u64 {
            let msg = String::from_str("mmap failed for ").concat(u64_to_decimal(size_bytes).as_str()).concat(
                " bytes",
            );
            return Err(LiteDroidError::MemoryMapFailed(msg));
        }
        let bytes = vec![0u8; size_bytes as usize];
        let m = GuestMemory { bytes };
        assert(m@ =~= Seq::new(size_bytes as nat, |i: int| 0u8));
        Ok(m)
    }

    /// Copy `buf.len()` bytes **from** guest physical address `addr` into the
    /// caller-supplied buffer.
    ///
    /// Returns [`LiteDroidError::GuestAddressOutOfRange`], leaving `buf` as
    /// it was, when `[addr, addr + buf.len())` is not inside the region.
    pub fn read_guest(&self, addr: u64, buf: &mut [u8]) -> (r: Result<()>)
        ensures
            r is Ok <==> range_fits(addr, old(buf)@.len(), self@.len()),
            r is Ok ==> final(buf)@ == self@.subrange(addr as int, addr + old(buf)@.len()),
            r matches Err(e) ==> (e == LiteDroidError::GuestAddressOutOfRange { address: addr } && final(buf)@
                == old(buf)@),
    {
        let n = buf.len();
        let size = self.bytes.len();
        let end = match addr.checked_add(n as u64) {
            Some(end) => end,
            None => return Err(LiteDroidError::GuestAddressOutOfRange { address: addr }),
        };
        if end > size as u64 {
            return Err(LiteDroidError::GuestAddressOutOfRange { address: addr });
        }
        let start = addr as usize;
        let mut i: usize = 0;
        while i < n
            invariant
                n == buf@.len(),
                n == old(buf)@.len(),
                size == self@.len(),
                start + n <= size,
                start == addr,
                i <= n,
                forall|k: int| 0 <= k < i ==> buf@[k] == self@[start + k],
            decreases n - i,
        {
            buf[i] = self.bytes[start + i];
            i = i + 1;
        }
        assert(buf@ =~= self@.subrange(addr as int, addr + n));
        Ok(())
    }

    /// Copy the contents of `data` **into** guest physical memory starting at
    /// `addr`.
    ///
    /// Returns [`LiteDroidError::GuestAddressOutOfRange`], leaving memory as
    /// it was, when `[addr, addr + data.len())` is not inside the region.
    pub fn write_guest(&mut self, addr: u64, data: &[u8]) -> (r: Result<()>)
        ensures
            r is Ok <==> range_fits(addr, data@.len(), old(self)@.len()),
            r is Ok ==> final(self)@ == splice(old(self)@, addr as int, data@),
            r matches Err(e) ==> (e == LiteDroidError::GuestAddressOutOfRange { address: addr } && final(self)@
                == old(self)@),
    {
        let n = data.len();
        let size = self.bytes.len();
        let end = match addr.checked_add(n as u64) {
            Some(end) => end,
            None => return Err(LiteDroidError::GuestAddressOutOfRange { address: addr }),
        };
        if end > size as u64 {
            return Err(LiteDroidError::GuestAddressOutOfRange { address: addr });
        }
        let start = addr as usize;
        let mut i: usize = 0;
        while i < n
            invariant
                n == data@.len(),
                size == self@.len(),
                size == old(self)@.len(),
                start + n <= size,
                start == addr,
                i <= n,
                self@ == splice(old(self)@, start as int, data@.subrange(0, i as int)),
            decreases n - i,
        {
            self.bytes.set(start + i, data[i]);
            i = i + 1;
            assert(self@ =~= splice(old(self)@, start as int, data@.subrange(0, i as int)));
        }
        assert(data@.subrange(0, n as int) =~= data@);
        Ok(())
    }

    /// Convenience helper: load a binary blob (kernel, initramfs, …) at the
    /// given guest physical address.
    pub fn load_blob(&mut self, addr: u64, data: &[u8]) -> (r: Result<()>)
        ensures
            r is Ok <==> range_fits(addr, data@.len(), old(self)@.len()),
            r is Ok ==> final(self)@ == splice(old(self)@, addr as int, data@),
            r matches Err(e) ==> (e == LiteDroidError::GuestAddressOutOfRange { address: addr } && final(self)@
                == old(self)@),
    {
        self.write_guest(addr, data)
    }

    /// Size of the region in bytes.
    pub fn size(&self) -> (n: u64)
        ensures
            n == self@.len(),
    {
        self.bytes.len() as u64
    }

    /// The whole region as the host sees it, for registering it with the
    /// hypervisor, which then backs the guest's RAM with these bytes.
    pub fn host_bytes(&self) -> (s: &[u8])
        ensures
            s@ == self@,
    {
        self.bytes.as_slice()
    }
}

/// Reading back the range just written gives the bytes that were written.
pub proof fn lemma_read_after_write(m: Seq<u8>, addr: u64, data: Seq<u8>)
    requires
        range_fits(addr, data.len(), m.len()),
    ensures
        splice(m, addr as int, data).len() == m.len(),
        splice(m, addr as int, data).subrange(addr as int, addr + data.len()) == data,
{
    assert(splice(m, addr as int, data).subrange(addr as int, addr + data.len()) =~= data);
}

/// A write leaves every byte outside its range as it was.
pub proof fn lemma_write_keeps_other_bytes(m: Seq<u8>, addr: u64, data: Seq<u8>, other: u64, len: nat)
    requires
        range_fits(addr, data.len(), m.len()),
        range_fits(other, len, m.len()),
        other + len <= addr || addr + data.len() <= other,
    ensures
        splice(m, addr as int, data).subrange(other as int, other + len) == m.subrange(other as int, other + len),
{
    assert(splice(m, addr as int, data).subrange(other as int, other + len) =~= m.subrange(
        other as int,
        other + len,
    ));
}

} // verus!
