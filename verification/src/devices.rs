//! Memory-mapped virtual devices and the bus that routes guest accesses to them.
use vstd::prelude::*;

use crate::constants::{MAX_VIRTIO_DEVICES, VIRTIO_MMIO_SIZE, VIRTIO_MMIO_START};
use crate::error::{LiteDroidError, Result};
use crate::wire::{le64, u64_to_le};

verus! {

/// "virt", read little-endian.
pub const VIRTIO_MAGIC: u32 = 0x74726976;
pub const VIRTIO_VERSION_2: u32 = 2;
pub const VIRTIO_ID_CONSOLE: u32 = 3;
pub const VIRTIO_ID_RNG: u32 = 4;

/// Trait for virtual devices connected via MMIO.
pub trait VirtDevice: Send + Sync {
    /// Whether `v` is an answer the device may give to a read of `size`
    /// bytes at register `offset`.
    spec fn answers(&self, offset: u64, size: u32, v: u64) -> bool;

    /// Whether the device shows a write of `value` to register `offset`
    /// (the register written reads back the value, where it is one that
    /// holds it).
    spec fn shows_write(&self, offset: u64, value: u64) -> bool;

    /// Whether the device is in its reset state.
    spec fn is_reset(&self) -> bool;

    fn name(&self) -> &str;

    fn device_type(&self) -> &str;

    fn mmio_read(&mut self, offset: u64, size: u32) -> (v: u64)
        ensures
            old(self).answers(offset, size, v),
    ;

    fn mmio_write(&mut self, offset: u64, size: u32, value: u64)
        ensures
            final(self).shows_write(offset, value),
    ;

    fn reset(&mut self)
        ensures
            final(self).is_reset(),
    ;

    fn device_tree_compatible(&self) -> &str;
}

/// The slot that `address` falls in on the bus, counted from the first MMIO
/// window, and the register offset within that slot's window; `None` below
/// the first window.
pub open spec fn bus_slot(address: u64) -> Option<(usize, u64)> {
    if address < VIRTIO_MMIO_START {
        None
    } else {
        let offset = (address - VIRTIO_MMIO_START) as u64;
        Some(((offset / VIRTIO_MMIO_SIZE) as usize, (offset % VIRTIO_MMIO_SIZE) as u64))
    }
}

/// Container that routes MMIO reads/writes to devices by address range.
///
/// Devices are mapped at `VIRTIO_MMIO_START + index * VIRTIO_MMIO_SIZE`.
pub struct VirtioBus {
    devices: Vec<Box<dyn VirtDevice>>,
}

impl VirtioBus {
    /// The devices on the bus, in the order they were added.
    pub closed spec fn devices(&self) -> Seq<Box<dyn VirtDevice>> {
        self.devices@
    }

    /// Whether `address` falls in the window of a device on the bus.
    pub open spec fn routes(&self, address: u64) -> bool {
        bus_slot(address) matches Some((i, _)) && i < self.devices().len()
    }

    /// Whether every device but the one at `address` (if any) is untouched.
    pub open spec fn only_routed_changed(&self, next: &Self, address: u64) -> bool {
        &&& next.devices().len() == self.devices().len()
        &&& forall|j: int|
            0 <= j < self.devices().len() && !(bus_slot(address) matches Some((i, _)) && i == j)
                ==> next.devices()[j] == self.devices()[j]
    }

    pub fn new() -> (bus: Self)
        ensures
            bus.devices().len() == 0,
    {
        VirtioBus { devices: Vec::new() }
    }

    /// Add a virtual device to the bus.
    pub fn add_device(&mut self, device: Box<dyn VirtDevice>) -> (r: Result<()>)
        ensures
            old(self).devices().len() < MAX_VIRTIO_DEVICES ==> r is Ok && final(self).devices()
                == old(self).devices().push(device),
            old(self).devices().len() >= MAX_VIRTIO_DEVICES ==> final(self).devices()
                == old(self).devices() && (r matches Err(LiteDroidError::DeviceAlreadyExists(m))
                && m@ == "maximum device count reached"@),
    {
        if self.devices.len() >= MAX_VIRTIO_DEVICES {
            return Err(
                LiteDroidError::DeviceAlreadyExists(String::from_str("maximum device count reached")),
            );
        }
        self.devices.push(device);
        Ok(())
    }

    /// Route an MMIO read to the appropriate device.
    ///
    /// Addresses outside every device window read as 0. Within a window the
    /// device answers the read of its register at the address's offset in
    /// the window; no other device is touched.
    pub fn read(&mut self, address: u64, size: u32) -> (v: u64)
        ensures
            old(self).only_routed_changed(&*final(self), address),
            !old(self).routes(address) ==> v == 0 && final(self).devices() == old(self).devices(),
            old(self).routes(address) ==> (bus_slot(address) matches Some((i, offset))
                && old(self).devices()[i as int].answers(offset, size, v)),
    {
        if address < VIRTIO_MMIO_START {
            return 0;
        }
        let offset = address - VIRTIO_MMIO_START;
        let index = (offset / VIRTIO_MMIO_SIZE) as usize;
        let reg_offset = offset % VIRTIO_MMIO_SIZE;
        if index < self.devices.len() {
            self.devices[index].mmio_read(reg_offset, size)
        } else {
            0
        }
    }

    /// Route an MMIO write to the appropriate device.
    ///
    /// Writes outside every device window are dropped. Within a window the
    /// device takes the write to its register at the address's offset in
    /// the window; no other device is touched.
    pub fn write(&mut self, address: u64, size: u32, value: u64)
        ensures
            old(self).only_routed_changed(&*final(self), address),
            !old(self).routes(address) ==> final(self).devices() == old(self).devices(),
            old(self).routes(address) ==> (bus_slot(address) matches Some((i, offset))
                && final(self).devices()[i as int].shows_write(offset, value)),
    {
        if address < VIRTIO_MMIO_START {
            return;
        }
        let offset = address - VIRTIO_MMIO_START;
        let index = (offset / VIRTIO_MMIO_SIZE) as usize;
        let reg_offset = offset % VIRTIO_MMIO_SIZE;
        if index < self.devices.len() {
            self.devices[index].mmio_write(reg_offset, size, value);
        }
    }

    /// Returns the number of devices currently registered on the bus.
    pub fn device_count(&self) -> (n: usize)
        ensures
            n == self.devices().len(),
    {
        self.devices.len()
    }

    /// Reset all devices on the bus.
    pub fn reset_all(&mut self)
        ensures
            final(self).devices().len() == old(self).devices().len(),
            forall|i: int| 0 <= i < final(self).devices().len() ==> #[trigger] final(self).devices()[i].is_reset(),
    {
        let n = self.devices.len();
        let mut i: usize = 0;
        while i < n
            invariant
                i <= n,
                n == self.devices@.len(),
                forall|j: int| 0 <= j < i ==> #[trigger] self.devices@[j].is_reset(),
            decreases n - i,
        {
            self.devices[i].reset();
            i = i + 1;
        }
    }
}

impl Default for VirtioBus {
    fn default() -> (bus: Self)
        ensures
            bus.devices().len() == 0,
    {
        Self::new()
    }
}

/// The register file of a virtio device header: magic, version and device
/// id, a zero vendor id, and the status register at 0x40; the serial
/// console also shows its interrupt status at 0x34.
pub open spec fn serial_register(offset: u64, status: u32, interrupt_status: u32) -> u64 {
    if offset == 0x00 {
        VIRTIO_MAGIC as u64
    } else if offset == 0x04 {
        VIRTIO_VERSION_2 as u64
    } else if offset == 0x08 {
        VIRTIO_ID_CONSOLE as u64
    } else if offset == 0x34 {
        interrupt_status as u64
    } else if offset == 0x40 {
        status as u64
    } else {
        0
    }
}

/// The bytes a write of `size` bytes of `value` to the serial transmit
/// register sends: the low `size` bytes (at most 8), least significant first.
pub open spec fn transmitted(value: u64, size: u32) -> Seq<u8> {
    le64(value).subrange(0, if size < 8 { size as int } else { 8 })
}

/// The bytes a write of `size` bytes of `value` to the serial transmit
/// register sends (see `transmitted`).
pub fn transmit_bytes(value: u64, size: u32) -> (b: Vec<u8>)
    ensures
        b@ == transmitted(value, size),
{
    let bytes = u64_to_le(value);
    let len: usize = if (size as u64) < 8 { size as usize } else { 8 };
    crate::seqs::copy_range(bytes.as_slice(), 0, len)
}

/// Simple virtio serial console with an output callback.
pub struct VirtioSerialDevice<F: Fn(&[u8]) + Send + Sync> {
    status: u32,
    interrupt_status: u32,
    output: F,
}

impl<F: Fn(&[u8]) + Send + Sync> VirtioSerialDevice<F> {
    #[verifier::type_invariant]
    spec fn accepts_any_output(self) -> bool {
        forall|b: &[u8]| #[trigger] call_requires(self.output, (b,))
    }

    /// The driver status register.
    pub closed spec fn status(&self) -> u32 {
        self.status
    }

    /// The interrupt status register.
    pub closed spec fn interrupt_status(&self) -> u32 {
        self.interrupt_status
    }

    /// The callback that transmitted bytes are handed to.
    pub closed spec fn output(&self) -> F {
        self.output
    }

    pub fn new(output: F) -> (d: Self)
        requires
            forall|b: &[u8]| #[trigger] call_requires(output, (b,)),
        ensures
            d.status() == 0,
            d.interrupt_status() == 0,
            d.output() == output,
    {
        VirtioSerialDevice { status: 0, interrupt_status: 0, output }
    }
}

impl<F: Fn(&[u8]) + Send + Sync> VirtDevice for VirtioSerialDevice<F> {
    open spec fn answers(&self, offset: u64, size: u32, v: u64) -> bool {
        v == serial_register(offset, self.status(), self.interrupt_status())
    }

    open spec fn shows_write(&self, offset: u64, value: u64) -> bool {
        offset == 0x40 ==> self.status() == value as u32
    }

    open spec fn is_reset(&self) -> bool {
        self.status() == 0 && self.interrupt_status() == 0
    }

    fn name(&self) -> (s: &str)
        ensures
            s@ == "virtio-serial"@,
    {
        "virtio-serial"
    }

    fn device_type(&self) -> (s: &str)
        ensures
            s@ == "serial"@,
    {
        "serial"
    }

    fn mmio_read(&mut self, offset: u64, _size: u32) -> (v: u64)
        ensures
            v == serial_register(offset, old(self).status(), old(self).interrupt_status()),
            *final(self) == *old(self),
    {
        match offset {
            0x00 => VIRTIO_MAGIC as u64,
            0x04 => VIRTIO_VERSION_2 as u64,
            0x08 => VIRTIO_ID_CONSOLE as u64,
            0x0c => 0,
            0x34 => self.interrupt_status as u64,
            0x40 => self.status as u64,
            _ => 0,
        }
    }

    /// A write to 0x40 sets the status register (truncated to 32 bits). A
    /// write to the transmit register 0x100 hands the first `size` bytes (at
    /// most 8) of the value, least significant first, to the output callback.
    /// Every other write is ignored.
    fn mmio_write(&mut self, offset: u64, size: u32, value: u64)
        ensures
            final(self).status() == (if offset == 0x40 { value as u32 } else { old(self).status() }),
            final(self).interrupt_status() == old(self).interrupt_status(),
            final(self).output() == old(self).output(),
            offset == 0x100 ==> exists|b: &[u8]| #[trigger] call_ensures(old(self).output(), (b,), ()) && b@
                == transmitted(value, size),
    {
        proof {
            use_type_invariant(&*self);
        }
        if offset == 0x40 {
            self.status = value as u32;
        } else if offset == 0x100 {
            let data = transmit_bytes(value, size);
            let sent = data.as_slice();
            (self.output)(sent);
            assert(call_ensures(old(self).output(), (sent,), ()) && sent@ == transmitted(value, size));
        }
    }

    fn reset(&mut self)
        ensures
            final(self).status() == 0,
            final(self).interrupt_status() == 0,
            final(self).output() == old(self).output(),
    {
        proof {
            use_type_invariant(&*self);
        }
        self.status = 0;
        self.interrupt_status = 0;
    }

    fn device_tree_compatible(&self) -> (s: &str)
        ensures
            s@ == "virtio,serial"@,
    {
        "virtio,serial"
    }
}

/// The value of a random-data register read: the bytes, most significant
/// first, keeping the low 64 bits.
pub open spec fn be_fold(bytes: Seq<u8>) -> u64
    decreases bytes.len(),
{
    if bytes.len() == 0 {
        0
    } else {
        ((be_fold(bytes.drop_last()) << 8u64) | (bytes.last() as u64)) as u64
    }
}

/// Fold `bytes` into a `u64`, most significant first, keeping the low 64 bits.
pub fn fold_be(bytes: &[u8]) -> (v: u64)
    ensures
        v == be_fold(bytes@),
{
    let mut val: u64 = 0;
    let mut i: usize = 0;
    while i < bytes.len()
        invariant
            i <= bytes@.len(),
            val == be_fold(bytes@.take(i as int)),
        decreases bytes@.len() - i,
    {
        assert(bytes@.take(i + 1).drop_last() =~= bytes@.take(i as int));
        val = (val << 8u64) | bytes[i] as u64;
        i = i + 1;
    }
    assert(bytes@.take(bytes@.len() as int) =~= bytes@);
    val
}

/// The value the data register reads for what the entropy source gave: the
/// bytes folded most significant first, or 0 when the source failed.
pub open spec fn rng_value(fetched: Option<Vec<u8>>) -> u64 {
    match fetched {
        Some(b) => be_fold(b@),
        None => 0,
    }
}

/// Virtio RNG device that hands guest reads of its data register random
/// bytes from its entropy source: `source(len)` gives `len` fresh random
/// bytes, or `None` when it cannot.
pub struct VirtioRngDevice<R: Fn(usize) -> Option<Vec<u8>> + Send + Sync> {
    status: u32,
    source: R,
}

impl<R: Fn(usize) -> Option<Vec<u8>> + Send + Sync> VirtioRngDevice<R> {
    #[verifier::type_invariant]
    spec fn accepts_any_length(self) -> bool {
        forall|n: usize| #[trigger] call_requires(self.source, (n,))
    }

    /// The driver status register.
    pub closed spec fn status(&self) -> u32 {
        self.status
    }

    /// The entropy source the data register draws from.
    pub closed spec fn source(&self) -> R {
        self.source
    }

    pub fn new(source: R) -> (d: Self)
        requires
            forall|n: usize| #[trigger] call_requires(source, (n,)),
        ensures
            d.status() == 0,
            d.source() == source,
    {
        VirtioRngDevice { status: 0, source }
    }
}

/// The non-random registers of the entropy device: magic, version, device id,
/// zero vendor id and the status register at 0x40.
pub open spec fn rng_register(offset: u64, status: u32) -> u64 {
    if offset == 0x00 {
        VIRTIO_MAGIC as u64
    } else if offset == 0x04 {
        VIRTIO_VERSION_2 as u64
    } else if offset == 0x08 {
        VIRTIO_ID_RNG as u64
    } else if offset == 0x40 {
        status as u64
    } else {
        0
    }
}

impl<R: Fn(usize) -> Option<Vec<u8>> + Send + Sync> VirtDevice for VirtioRngDevice<R> {
    /// The data register 0x100 reads what the source gives for a request of
    /// `size` bytes (see `rng_value`); the others read as `rng_register`
    /// gives them.
    open spec fn answers(&self, offset: u64, size: u32, v: u64) -> bool {
        &&& offset != 0x100 ==> v == rng_register(offset, self.status())
        &&& offset == 0x100 ==> exists|fetched: Option<Vec<u8>>|
            #[trigger] call_ensures(self.source(), (size as usize,), fetched) && v == rng_value(fetched)
    }

    open spec fn shows_write(&self, offset: u64, value: u64) -> bool {
        offset == 0x40 ==> self.status() == value as u32
    }

    open spec fn is_reset(&self) -> bool {
        self.status() == 0
    }

    fn name(&self) -> (s: &str)
        ensures
            s@ == "virtio-rng"@,
    {
        "virtio-rng"
    }

    fn device_type(&self) -> (s: &str)
        ensures
            s@ == "rng"@,
    {
        "rng"
    }

    /// The data register 0x100 reads `size` random bytes folded most
    /// significant first (0 when the source fails); the other registers are
    /// those of `rng_register`.
    fn mmio_read(&mut self, offset: u64, size: u32) -> (v: u64)
        ensures
            final(self).status() == old(self).status(),
            final(self).source() == old(self).source(),
            offset != 0x100 ==> v == rng_register(offset, old(self).status()),
            offset == 0x100 ==> exists|fetched: Option<Vec<u8>>|
                #[trigger] call_ensures(old(self).source(), (size as usize,), fetched) && v == rng_value(fetched),
    {
        proof {
            use_type_invariant(&*self);
        }
        match offset {
            0x00 => VIRTIO_MAGIC as u64,
            0x04 => VIRTIO_VERSION_2 as u64,
            0x08 => VIRTIO_ID_RNG as u64,
            0x0c => 0,
            0x40 => self.status as u64,
            0x100 => {
                let fetched = (self.source)(size as usize);
                assert(call_ensures(old(self).source(), (size as usize,), fetched));
                match fetched {
                    Some(buf) => fold_be(buf.as_slice()),
                    None => 0,
                }
            },
            _ => 0,
        }
    }

    fn mmio_write(&mut self, offset: u64, _size: u32, value: u64)
        ensures
            final(self).status() == (if offset == 0x40 { value as u32 } else { old(self).status() }),
            final(self).source() == old(self).source(),
    {
        proof {
            use_type_invariant(&*self);
        }
        if offset == 0x40 {
            self.status = value as u32;
        }
    }

    fn reset(&mut self)
        ensures
            final(self).status() == 0,
            final(self).source() == old(self).source(),
    {
        proof {
            use_type_invariant(&*self);
        }
        self.status = 0;
    }

    fn device_tree_compatible(&self) -> (s: &str)
        ensures
            s@ == "virtio,rng"@,
    {
        "virtio,rng"
    }
}

} // verus!
