//! A simplified audio device whose playback buffer is drained in blocks.
use vstd::prelude::*;

use crate::devices::VirtDevice;

verus! {

/// Available audio backends.
#[derive(Debug, Clone)]
pub enum AudioBackend {
    /// PulseAudio server (identified by its name, e.g. "default").
    PulseAudio(String),
    /// No audio output.
    Disabled,
}

pub const AUDIO_BUF_SIZE: usize = 4096;
pub const FLUSH_THRESHOLD: usize = 2048;

/// MMIO register offsets for the audio device.
pub const REG_CTRL: u64 = 0x00;
pub const REG_DATA: u64 = 0x04;
pub const REG_SAMPLE_RATE: u64 = 0x08;
pub const REG_CHANNELS: u64 = 0x0C;
pub const REG_STATUS: u64 = 0x10;

/// The buffer after a playback flush: drained once it holds
/// `FLUSH_THRESHOLD` bytes or more.
pub open spec fn flushed(buffer: Seq<u8>) -> Seq<u8> {
    if buffer.len() >= FLUSH_THRESHOLD {
        Seq::empty()
    } else {
        buffer
    }
}

/// The buffer after the guest writes `value` to the data register: its low
/// byte is appended while the buffer is below `AUDIO_BUF_SIZE`, then the
/// buffer is flushed.
pub open spec fn after_data_write(buffer: Seq<u8>, value: u64) -> Seq<u8> {
    flushed(if buffer.len() < AUDIO_BUF_SIZE { buffer.push(value as u8) } else { buffer })
}

/// Simplified virtio audio device with a software-mixed internal buffer.
///
/// When PulseAudio is not available, writes to the DATA register accumulate in
/// an internal 4 KiB buffer. Once 2 KiB or more have been buffered the
/// contents are discarded, simulating playback.
pub struct AudioDevice {
    buffer: Vec<u8>,
    sample_rate: u32,
    channels: u32,
    status: u32,
}

impl AudioDevice {
    /// The bytes waiting to be played.
    pub closed spec fn buffered(&self) -> Seq<u8> {
        self.buffer@
    }

    pub closed spec fn sample_rate(&self) -> u32 {
        self.sample_rate
    }

    pub closed spec fn channels(&self) -> u32 {
        self.channels
    }

    pub closed spec fn status(&self) -> u32 {
        self.status
    }

    /// The state of a freshly created or reset device.
    pub open spec fn is_initial(&self) -> bool {
        &&& self.buffered().len() == 0
        &&& self.sample_rate() == 48000
        &&& self.channels() == 2
        &&& self.status() == 0
    }

    pub fn new() -> (d: Self)
        ensures
            d.is_initial(),
    {
        AudioDevice { buffer: Vec::new(), sample_rate: 48000, channels: 2, status: 0 }
    }

    fn flush_buffer(&mut self)
        ensures
            final(self).buffered() == flushed(old(self).buffered()),
            final(self).sample_rate() == old(self).sample_rate(),
            final(self).channels() == old(self).channels(),
            final(self).status() == old(self).status(),
    {
        if self.buffer.len() >= FLUSH_THRESHOLD {
            self.buffer.clear();
        }
    }
}

impl Default for AudioDevice {
    fn default() -> (d: Self)
        ensures
            d.is_initial(),
    {
        Self::new()
    }
}

impl VirtDevice for AudioDevice {
    open spec fn answers(&self, offset: u64, size: u32, v: u64) -> bool {
        v == (if offset == REG_SAMPLE_RATE {
            self.sample_rate() as u64
        } else if offset == REG_CHANNELS {
            self.channels() as u64
        } else if offset == REG_STATUS {
            self.status() as u64
        } else {
            0
        })
    }

    open spec fn shows_write(&self, offset: u64, value: u64) -> bool {
        &&& offset == REG_SAMPLE_RATE ==> self.sample_rate() == value as u32
        &&& offset == REG_CHANNELS ==> self.channels() == value as u32
        &&& offset == REG_STATUS ==> self.status() == value as u32
    }

    open spec fn is_reset(&self) -> bool {
        self.is_initial()
    }

    fn name(&self) -> (s: &str)
        ensures
            s@ == "virtio-audio"@,
    {
        "virtio-audio"
    }

    fn device_type(&self) -> (s: &str)
        ensures
            s@ == "audio"@,
    {
        "audio"
    }

    /// Control and data read as 0 (the simulated microphone is silent); the
    /// sample rate, channel count and status registers read back their values.
    fn mmio_read(&mut self, offset: u64, _size: u32) -> (v: u64)
        ensures
            *final(self) == *old(self),
            v == (if offset == REG_SAMPLE_RATE {
                old(self).sample_rate() as u64
            } else if offset == REG_CHANNELS {
                old(self).channels() as u64
            } else if offset == REG_STATUS {
                old(self).status() as u64
            } else {
                0
            }),
    {
        match offset {
            REG_CTRL => 0,
            REG_DATA => 0,
            REG_SAMPLE_RATE => self.sample_rate as u64,
            REG_CHANNELS => self.channels as u64,
            REG_STATUS => self.status as u64,
            _ => 0,
        }
    }

    /// A data write buffers the value's low byte (see `after_data_write`);
    /// writes to the sample rate, channel and status registers set them to the
    /// value's low 32 bits; other writes are ignored.
    fn mmio_write(&mut self, offset: u64, _size: u32, value: u64)
        ensures
            final(self).buffered() == (if offset == REG_DATA {
                after_data_write(old(self).buffered(), value)
            } else {
                old(self).buffered()
            }),
            final(self).sample_rate() == (if offset == REG_SAMPLE_RATE {
                value as u32
            } else {
                old(self).sample_rate()
            }),
            final(self).channels() == (if offset == REG_CHANNELS {
                value as u32
            } else {
                old(self).channels()
            }),
            final(self).status() == (if offset == REG_STATUS {
                value as u32
            } else {
                old(self).status()
            }),
    {
        match offset {
            REG_CTRL => {},
            REG_DATA => {
                if self.buffer.len() < AUDIO_BUF_SIZE {
                    self.buffer.push(value as u8);
                }
                self.flush_buffer();
            },
            REG_SAMPLE_RATE => {
                self.sample_rate = value as u32;
            },
            REG_CHANNELS => {
                self.channels = value as u32;
            },
            REG_STATUS => {
                self.status = value as u32;
            },
            _ => {},
        }
    }

    fn reset(&mut self)
        ensures
            final(self).is_initial(),
    {
        self.buffer.clear();
        self.sample_rate = 48000;
        self.channels = 2;
        self.status = 0;
    }

    fn device_tree_compatible(&self) -> (s: &str)
        ensures
            s@ == "virtio,audio"@,
    {
        "virtio,audio"
    }
}

/// The playback buffer never reaches the flush threshold between writes:
/// starting below it, any data write leaves it below it.
pub proof fn lemma_buffer_stays_below_threshold(buffer: Seq<u8>, value: u64)
    requires
        buffer.len() < FLUSH_THRESHOLD,
    ensures
        after_data_write(buffer, value).len() < FLUSH_THRESHOLD,
{
}

} // verus!
