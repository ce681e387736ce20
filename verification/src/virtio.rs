//! A virtio-mmio block device (modern transport): its register file, as the guest driver sees it
//! while it discovers and configures the device.

use crate::bytes::u32_bytes;
use crate::bytes::u32_from_bytes;
use vstd::prelude::*;

verus! {

broadcast use vstd::slice::group_slice_axioms;

// Register offsets.
pub const VIRTIO_MMIO_MAGIC_VALUE: u64 = 0x000;
pub const VIRTIO_MMIO_VERSION: u64 = 0x004;
pub const VIRTIO_MMIO_DEVICE_ID: u64 = 0x008;
pub const VIRTIO_MMIO_VENDOR_ID: u64 = 0x00c;
pub const VIRTIO_MMIO_DEVICE_FEATURES: u64 = 0x010;
pub const VIRTIO_MMIO_DEVICE_FEATURES_SEL: u64 = 0x014;
pub const VIRTIO_MMIO_DRIVER_FEATURES: u64 = 0x020;
pub const VIRTIO_MMIO_DRIVER_FEATURES_SEL: u64 = 0x024;
pub const VIRTIO_MMIO_QUEUE_SEL: u64 = 0x030;
pub const VIRTIO_MMIO_QUEUE_NUM_MAX: u64 = 0x034;
pub const VIRTIO_MMIO_QUEUE_NUM: u64 = 0x038;
pub const VIRTIO_MMIO_QUEUE_READY: u64 = 0x044;
pub const VIRTIO_MMIO_QUEUE_NOTIFY: u64 = 0x050;
pub const VIRTIO_MMIO_INTERRUPT_STATUS: u64 = 0x060;
pub const VIRTIO_MMIO_INTERRUPT_ACK: u64 = 0x064;
pub const VIRTIO_MMIO_STATUS: u64 = 0x070;
pub const VIRTIO_MMIO_QUEUE_DESC_LOW: u64 = 0x080;
pub const VIRTIO_MMIO_QUEUE_DESC_HIGH: u64 = 0x084;
pub const VIRTIO_MMIO_QUEUE_AVAIL_LOW: u64 = 0x090;
pub const VIRTIO_MMIO_QUEUE_AVAIL_HIGH: u64 = 0x094;
pub const VIRTIO_MMIO_QUEUE_USED_LOW: u64 = 0x0a0;
pub const VIRTIO_MMIO_QUEUE_USED_HIGH: u64 = 0x0a4;
/// Low word of the disk capacity, at the start of the block device's configuration space.
pub const VIRTIO_MMIO_CONFIG: u64 = 0x100;
/// High word of the disk capacity.
pub const VIRTIO_MMIO_CONFIG_HIGH: u64 = 0x104;

/// "virt", little-endian.
pub const VIRTIO_MAGIC: u32 = 0x7472_6976;
/// The modern (non-legacy) transport.
pub const VIRTIO_VERSION: u32 = 2;
/// The device type of a block device.
pub const VIRTIO_ID_BLOCK: u32 = 2;
/// An arbitrary vendor.
pub const VIRTIO_VENDOR: u32 = 0x1234_5678;
/// The longest queue that the device takes.
pub const QUEUE_SIZE_MAX: u32 = 256;
/// The feature bit that every modern device must offer.
pub const VIRTIO_F_VERSION_1: u64 = 0x1_0000_0000;

/// Bytes in a sector of the disk.
pub const SECTOR_SIZE: u64 = 512;

/// The register file of the block device.
#[derive(Clone, Copy, Debug, PartialEq, Eq, Structural)]
pub struct VirtioBlk {
    /// Disk size in sectors.
    pub capacity_sectors: u64,
    /// Device status, as the driver last wrote it.
    pub status: u32,
    /// Which word of the device features the driver reads.
    pub device_features_sel: u32,
    /// Which word of the driver features the driver writes.
    pub driver_features_sel: u32,
    /// The features that the driver has accepted so far.
    pub driver_features: u64,
    /// The queue that the queue registers stand for.
    pub queue_sel: u32,
    /// Length of the queue.
    pub queue_num: u32,
    /// Whether the queue is live.
    pub queue_ready: u32,
    /// Guest address of the descriptor table.
    pub queue_desc: u64,
    /// Guest address of the available ring.
    pub queue_avail: u64,
    /// Guest address of the used ring.
    pub queue_used: u64,
    /// The interrupts that the driver has not acknowledged.
    pub interrupt_status: u32,
}

/// The low word of a 64-bit register.
pub open spec fn low_word(v: u64) -> u32 {
    (v % 0x1_0000_0000) as u32
}

/// The high word of a 64-bit register.
pub open spec fn high_word(v: u64) -> u32 {
    (v / 0x1_0000_0000) as u32
}

/// The 64-bit register with the given words.
pub open spec fn from_words(low: u32, high: u32) -> u64 {
    (low + 0x1_0000_0000 * high) as u64
}

/// What a guest that reads `len` bytes of a register with value `v` sees: the value's bytes,
/// least significant first, then zeros.
pub open spec fn read_bytes(v: u32, len: nat) -> Seq<u8> {
    Seq::new(
        len,
        |i: int|
            if i < 4 {
                crate::bytes::le4(v)[i]
            } else {
                0
            },
    )
}

/// The value that a guest writes with the bytes `data`: the first four of them, least significant
/// first, as if zeros followed where there are fewer.
pub open spec fn written_value(data: Seq<u8>) -> u32 {
    crate::bytes::u32_at(data + seq![0u8, 0u8, 0u8, 0u8], 0) as u32
}

impl VirtioBlk {
    /// The value of the register at `offset` when the guest reads it.
    pub open spec fn register(self, offset: u64) -> u32 {
        if offset == VIRTIO_MMIO_MAGIC_VALUE {
            VIRTIO_MAGIC
        } else if offset == VIRTIO_MMIO_VERSION {
            VIRTIO_VERSION
        } else if offset == VIRTIO_MMIO_DEVICE_ID {
            VIRTIO_ID_BLOCK
        } else if offset == VIRTIO_MMIO_VENDOR_ID {
            VIRTIO_VENDOR
        } else if offset == VIRTIO_MMIO_DEVICE_FEATURES {
            if self.device_features_sel == 0 {
                low_word(VIRTIO_F_VERSION_1)
            } else {
                high_word(VIRTIO_F_VERSION_1)
            }
        } else if offset == VIRTIO_MMIO_QUEUE_NUM_MAX {
            QUEUE_SIZE_MAX
        } else if offset == VIRTIO_MMIO_QUEUE_READY {
            self.queue_ready
        } else if offset == VIRTIO_MMIO_INTERRUPT_STATUS {
            self.interrupt_status
        } else if offset == VIRTIO_MMIO_STATUS {
            self.status
        } else if offset == VIRTIO_MMIO_CONFIG {
            low_word(self.capacity_sectors)
        } else if offset == VIRTIO_MMIO_CONFIG_HIGH {
            high_word(self.capacity_sectors)
        } else {
            0
        }
    }

    /// The device after the guest has written `val` to the register at `offset`.
    pub open spec fn after_write(self, offset: u64, val: u32) -> VirtioBlk {
        if offset == VIRTIO_MMIO_DEVICE_FEATURES_SEL {
            VirtioBlk { device_features_sel: val, ..self }
        } else if offset == VIRTIO_MMIO_DRIVER_FEATURES_SEL {
            VirtioBlk { driver_features_sel: val, ..self }
        } else if offset == VIRTIO_MMIO_DRIVER_FEATURES {
            let accepted = if self.driver_features_sel == 0 {
                from_words(val, 0)
            } else {
                from_words(0, val)
            };
            VirtioBlk { driver_features: self.driver_features | accepted, ..self }
        } else if offset == VIRTIO_MMIO_QUEUE_SEL {
            VirtioBlk { queue_sel: val, ..self }
        } else if offset == VIRTIO_MMIO_QUEUE_NUM {
            VirtioBlk { queue_num: val, ..self }
        } else if offset == VIRTIO_MMIO_QUEUE_READY {
            VirtioBlk { queue_ready: val, ..self }
        } else if offset == VIRTIO_MMIO_QUEUE_DESC_LOW {
            VirtioBlk { queue_desc: from_words(val, high_word(self.queue_desc)), ..self }
        } else if offset == VIRTIO_MMIO_QUEUE_DESC_HIGH {
            VirtioBlk { queue_desc: from_words(low_word(self.queue_desc), val), ..self }
        } else if offset == VIRTIO_MMIO_QUEUE_AVAIL_LOW {
            VirtioBlk { queue_avail: from_words(val, high_word(self.queue_avail)), ..self }
        } else if offset == VIRTIO_MMIO_QUEUE_AVAIL_HIGH {
            VirtioBlk { queue_avail: from_words(low_word(self.queue_avail), val), ..self }
        } else if offset == VIRTIO_MMIO_QUEUE_USED_LOW {
            VirtioBlk { queue_used: from_words(val, high_word(self.queue_used)), ..self }
        } else if offset == VIRTIO_MMIO_QUEUE_USED_HIGH {
            VirtioBlk { queue_used: from_words(low_word(self.queue_used), val), ..self }
        } else if offset == VIRTIO_MMIO_INTERRUPT_ACK {
            VirtioBlk { interrupt_status: self.interrupt_status & !val, ..self }
        } else if offset == VIRTIO_MMIO_STATUS {
            VirtioBlk { status: val, ..self }
        } else {
            self
        }
    }

    /// A device at power-on, for a disk of `capacity_bytes` bytes; a partial last sector does not
    /// count.
    pub fn new(capacity_bytes: u64) -> (dev: VirtioBlk)
        ensures
            dev == (VirtioBlk {
                capacity_sectors: capacity_bytes / SECTOR_SIZE,
                status: 0,
                device_features_sel: 0,
                driver_features_sel: 0,
                driver_features: 0,
                queue_sel: 0,
                queue_num: 0,
                queue_ready: 0,
                queue_desc: 0,
                queue_avail: 0,
                queue_used: 0,
                interrupt_status: 0,
            }),
    {
        VirtioBlk {
            capacity_sectors: capacity_bytes / SECTOR_SIZE,
            status: 0,
            device_features_sel: 0,
            driver_features_sel: 0,
            driver_features: 0,
            queue_sel: 0,
            queue_num: 0,
            queue_ready: 0,
            queue_desc: 0,
            queue_avail: 0,
            queue_used: 0,
            interrupt_status: 0,
        }
    }

    /// The features that the device offers: the mandatory one alone.
    pub fn device_features(&self) -> (features: u64)
        ensures
            features == VIRTIO_F_VERSION_1,
    {
        VIRTIO_F_VERSION_1
    }

    /// Answers a guest read of `data.len()` bytes at `offset`.
    pub fn read(&self, offset: u64, data: &mut [u8])
        ensures
            final(data)@ == read_bytes(self.register(offset), old(data)@.len()),
    {
        let val: u32 = match offset {
            VIRTIO_MMIO_MAGIC_VALUE => VIRTIO_MAGIC,
            VIRTIO_MMIO_VERSION => VIRTIO_VERSION,
            VIRTIO_MMIO_DEVICE_ID => VIRTIO_ID_BLOCK,
            VIRTIO_MMIO_VENDOR_ID => VIRTIO_VENDOR,
            VIRTIO_MMIO_DEVICE_FEATURES => {
                if self.device_features_sel == 0 {
                    low_half(self.device_features())
                } else {
                    high_half(self.device_features())
                }
            },
            VIRTIO_MMIO_QUEUE_NUM_MAX => QUEUE_SIZE_MAX,
            VIRTIO_MMIO_QUEUE_READY => self.queue_ready,
            VIRTIO_MMIO_INTERRUPT_STATUS => self.interrupt_status,
            VIRTIO_MMIO_STATUS => self.status,
            VIRTIO_MMIO_CONFIG => low_half(self.capacity_sectors),
            VIRTIO_MMIO_CONFIG_HIGH => high_half(self.capacity_sectors),
            _ => 0,
        };
        assert(val == self.register(offset));
        let bytes = u32_bytes(val);
        let len: usize = data.len();
        let mut i: usize = 0;
        while i < len
            invariant
                i <= len,
                len == data@.len(),
                data@.len() == old(data)@.len(),
                bytes@ == crate::bytes::le4(val),
                forall|k: int| 0 <= k < i ==> data@[k] == read_bytes(val, len as nat)[k],
            decreases len - i,
        {
            data[i] = if i < 4 {
                bytes[i]
            } else {
                0
            };
            i = i + 1;
        }
    }

    /// Takes a guest write of `data` at `offset`. Returns the queue that the guest says has work to
    /// do, where the write is such a notification.
    pub fn write(&mut self, offset: u64, data: &[u8]) -> (kick: Option<u32>)
        ensures
            *final(self) == old(self).after_write(offset, written_value(data@)),
            kick == (if offset == VIRTIO_MMIO_QUEUE_NOTIFY {
                Some(written_value(data@))
            } else {
                None
            }),
    {
        let mut b: [u8; 4] = [0, 0, 0, 0];
        let mut i: usize = 0;
        let ghost padded = data@ + seq![0u8, 0u8, 0u8, 0u8];
        while i < 4 && i < data.len()
            invariant
                i <= 4,
                i <= data@.len(),
                padded == data@ + seq![0u8, 0u8, 0u8, 0u8],
                forall|k: int| 0 <= k < i ==> b@[k] == padded[k],
                forall|k: int| i <= k < 4 ==> b@[k] == 0,
            decreases 4 - i,
        {
            b[i] = data[i];
            i = i + 1;
        }
        assert(forall|k: int| 0 <= k < 4 ==> b@[k] == padded[k]);
        let val: u32 = u32_from_bytes(b);
        assert(val == written_value(data@));
        match offset {
            VIRTIO_MMIO_DEVICE_FEATURES_SEL => {
                self.device_features_sel = val;
            },
            VIRTIO_MMIO_DRIVER_FEATURES_SEL => {
                self.driver_features_sel = val;
            },
            VIRTIO_MMIO_DRIVER_FEATURES => {
                if self.driver_features_sel == 0 {
                    self.driver_features = self.driver_features | val as u64;
                } else {
                    self.driver_features = self.driver_features | high_bits(val);
                }
            },
            VIRTIO_MMIO_QUEUE_SEL => {
                self.queue_sel = val;
            },
            VIRTIO_MMIO_QUEUE_NUM => {
                self.queue_num = val;
            },
            VIRTIO_MMIO_QUEUE_READY => {
                self.queue_ready = val;
            },
            VIRTIO_MMIO_QUEUE_DESC_LOW => {
                self.queue_desc = with_low_half(self.queue_desc, val);
            },
            VIRTIO_MMIO_QUEUE_DESC_HIGH => {
                self.queue_desc = with_high_half(self.queue_desc, val);
            },
            VIRTIO_MMIO_QUEUE_AVAIL_LOW => {
                self.queue_avail = with_low_half(self.queue_avail, val);
            },
            VIRTIO_MMIO_QUEUE_AVAIL_HIGH => {
                self.queue_avail = with_high_half(self.queue_avail, val);
            },
            VIRTIO_MMIO_QUEUE_USED_LOW => {
                self.queue_used = with_low_half(self.queue_used, val);
            },
            VIRTIO_MMIO_QUEUE_USED_HIGH => {
                self.queue_used = with_high_half(self.queue_used, val);
            },
            VIRTIO_MMIO_INTERRUPT_ACK => {
                self.interrupt_status = self.interrupt_status & !val;
            },
            VIRTIO_MMIO_STATUS => {
                self.status = val;
            },
            VIRTIO_MMIO_QUEUE_NOTIFY => {
                return Some(val);
            },
            _ => {},
        }
        None
    }
}

fn low_half(v: u64) -> (w: u32)
    ensures
        w == low_word(v),
{
    assert(v as u32 == v % 0x1_0000_0000) by (bit_vector);
    v as u32
}

fn high_half(v: u64) -> (w: u32)
    ensures
        w == high_word(v),
{
    assert((v >> 32) as u32 == v / 0x1_0000_0000) by (bit_vector);
    (v >> 32) as u32
}

fn high_bits(val: u32) -> (v: u64)
    ensures
        v == from_words(0, val),
{
    assert((val as u64) << 32 == 0x1_0000_0000 * (val as u64)) by (bit_vector);
    (val as u64) << 32
}

fn with_low_half(v: u64, val: u32) -> (r: u64)
    ensures
        r == from_words(val, high_word(v)),
{
    assert(((v & 0xffff_ffff_0000_0000) | (val as u64)) == (val as u64) + 0x1_0000_0000 * (v
        / 0x1_0000_0000)) by (bit_vector);
    (v & 0xffff_ffff_0000_0000) | val as u64
}

fn with_high_half(v: u64, val: u32) -> (r: u64)
    ensures
        r == from_words(low_word(v), val),
{
    assert(((v & 0x0000_0000_ffff_ffff) | ((val as u64) << 32)) == (v % 0x1_0000_0000)
        + 0x1_0000_0000 * (val as u64)) by (bit_vector);
    (v & 0x0000_0000_ffff_ffff) | ((val as u64) << 32)
}

/// The two halves of a queue address may be written in either order: the descriptor table's address
/// is then made of both words, and nothing else has changed.
pub proof fn queue_desc_from_halves(dev: VirtioBlk, low: u32, high: u32)
    ensures
        dev.after_write(VIRTIO_MMIO_QUEUE_DESC_LOW, low).after_write(
            VIRTIO_MMIO_QUEUE_DESC_HIGH,
            high,
        ) == (VirtioBlk { queue_desc: from_words(low, high), ..dev }),
        dev.after_write(VIRTIO_MMIO_QUEUE_DESC_HIGH, high).after_write(
            VIRTIO_MMIO_QUEUE_DESC_LOW,
            low,
        ) == (VirtioBlk { queue_desc: from_words(low, high), ..dev }),
{
    words_of_from_words(low, high_word(dev.queue_desc));
    words_of_from_words(low_word(dev.queue_desc), high);
}

/// The same of the available ring's address.
pub proof fn queue_avail_from_halves(dev: VirtioBlk, low: u32, high: u32)
    ensures
        dev.after_write(VIRTIO_MMIO_QUEUE_AVAIL_LOW, low).after_write(
            VIRTIO_MMIO_QUEUE_AVAIL_HIGH,
            high,
        ) == (VirtioBlk { queue_avail: from_words(low, high), ..dev }),
        dev.after_write(VIRTIO_MMIO_QUEUE_AVAIL_HIGH, high).after_write(
            VIRTIO_MMIO_QUEUE_AVAIL_LOW,
            low,
        ) == (VirtioBlk { queue_avail: from_words(low, high), ..dev }),
{
    words_of_from_words(low, high_word(dev.queue_avail));
    words_of_from_words(low_word(dev.queue_avail), high);
}

/// The same of the used ring's address.
pub proof fn queue_used_from_halves(dev: VirtioBlk, low: u32, high: u32)
    ensures
        dev.after_write(VIRTIO_MMIO_QUEUE_USED_LOW, low).after_write(
            VIRTIO_MMIO_QUEUE_USED_HIGH,
            high,
        ) == (VirtioBlk { queue_used: from_words(low, high), ..dev }),
        dev.after_write(VIRTIO_MMIO_QUEUE_USED_HIGH, high).after_write(
            VIRTIO_MMIO_QUEUE_USED_LOW,
            low,
        ) == (VirtioBlk { queue_used: from_words(low, high), ..dev }),
{
    words_of_from_words(low, high_word(dev.queue_used));
    words_of_from_words(low_word(dev.queue_used), high);
}

/// A 64-bit register is made of its two words, and has them.
pub proof fn words_of_from_words(low: u32, high: u32)
    ensures
        low_word(from_words(low, high)) == low,
        high_word(from_words(low, high)) == high,
{
}

/// A 64-bit register is what its two words make.
pub proof fn from_words_of_words(v: u64)
    ensures
        from_words(low_word(v), high_word(v)) == v,
{
}

/// A driver that reads both words of the configuration space learns the capacity.
pub proof fn capacity_from_config(dev: VirtioBlk)
    ensures
        from_words(dev.register(VIRTIO_MMIO_CONFIG), dev.register(VIRTIO_MMIO_CONFIG_HIGH))
            == dev.capacity_sectors,
{
    from_words_of_words(dev.capacity_sectors);
}

/// A driver that selects and reads both words of the device features learns what the device
/// offers, whatever it selects the high word by.
pub proof fn features_from_words(dev: VirtioBlk, high_sel: u32)
    requires
        high_sel != 0,
    ensures
        from_words(
            dev.after_write(VIRTIO_MMIO_DEVICE_FEATURES_SEL, 0).register(
                VIRTIO_MMIO_DEVICE_FEATURES,
            ),
            dev.after_write(VIRTIO_MMIO_DEVICE_FEATURES_SEL, high_sel).register(
                VIRTIO_MMIO_DEVICE_FEATURES,
            ),
        ) == VIRTIO_F_VERSION_1,
{
}

/// A driver that writes both words of its features adds exactly those bits to what it had
/// accepted, and only the selector has changed besides.
pub proof fn driver_features_from_words(dev: VirtioBlk, low: u32, high: u32, high_sel: u32)
    requires
        high_sel != 0,
    ensures
        dev.after_write(VIRTIO_MMIO_DRIVER_FEATURES_SEL, 0).after_write(
            VIRTIO_MMIO_DRIVER_FEATURES,
            low,
        ).after_write(VIRTIO_MMIO_DRIVER_FEATURES_SEL, high_sel).after_write(
            VIRTIO_MMIO_DRIVER_FEATURES,
            high,
        ) == (VirtioBlk {
            driver_features: dev.driver_features | from_words(low, high),
            driver_features_sel: high_sel,
            ..dev
        }),
{
    let old_bits = dev.driver_features;
    let l = from_words(low, 0);
    let h = from_words(0, high);
    let both = from_words(low, high);
    assert((old_bits | l) | h == old_bits | both) by (bit_vector)
        requires
            l == low as u64,
            h == 0x1_0000_0000 * (high as u64),
            both == (low as u64) + 0x1_0000_0000 * (high as u64),
    ;
}

/// Accepted features are never withdrawn by a register write.
pub proof fn driver_features_only_grow(dev: VirtioBlk, offset: u64, val: u32)
    ensures
        dev.after_write(offset, val).driver_features & dev.driver_features == dev.driver_features,
{
    let f = dev.driver_features;
    let g = from_words(val, 0);
    let h = from_words(0, val);
    assert(f & f == f && (f | g) & f == f && (f | h) & f == f) by (bit_vector);
}

/// Acknowledging interrupts clears exactly the acknowledged ones.
pub proof fn ack_clears_exactly(dev: VirtioBlk, val: u32)
    ensures
        dev.after_write(VIRTIO_MMIO_INTERRUPT_ACK, val).interrupt_status & val == 0,
        dev.after_write(VIRTIO_MMIO_INTERRUPT_ACK, val).interrupt_status & !val
            == dev.interrupt_status & !val,
{
    let s = dev.interrupt_status;
    assert((s & !val) & val == 0 && (s & !val) & !val == s & !val) by (bit_vector);
}

/// A driver that acknowledges what it has read leaves no interrupt pending.
pub proof fn ack_of_status_clears_all(dev: VirtioBlk)
    ensures
        dev.after_write(
            VIRTIO_MMIO_INTERRUPT_ACK,
            dev.register(VIRTIO_MMIO_INTERRUPT_STATUS),
        ).register(VIRTIO_MMIO_INTERRUPT_STATUS) == 0,
{
    let s = dev.interrupt_status;
    assert(s & !s == 0) by (bit_vector);
}

/// The status and the ready flag read back as they were last written.
pub proof fn status_and_ready_read_back(dev: VirtioBlk, val: u32)
    ensures
        dev.after_write(VIRTIO_MMIO_STATUS, val).register(VIRTIO_MMIO_STATUS) == val,
        dev.after_write(VIRTIO_MMIO_QUEUE_READY, val).register(VIRTIO_MMIO_QUEUE_READY) == val,
{
}

/// What identifies the device, the longest queue and the capacity are the same in every state that
/// register writes can reach.
pub proof fn identity_is_constant(dev: VirtioBlk, offset: u64, val: u32, reg: u64)
    requires
        reg == VIRTIO_MMIO_MAGIC_VALUE || reg == VIRTIO_MMIO_VERSION || reg == VIRTIO_MMIO_DEVICE_ID
            || reg == VIRTIO_MMIO_VENDOR_ID || reg == VIRTIO_MMIO_QUEUE_NUM_MAX || reg
            == VIRTIO_MMIO_CONFIG || reg == VIRTIO_MMIO_CONFIG_HIGH,
    ensures
        dev.after_write(offset, val).register(reg) == dev.register(reg),
        dev.after_write(offset, val).capacity_sectors == dev.capacity_sectors,
{
}

/// Whether the device keeps what is written at `offset`.
pub open spec fn keeps_writes(offset: u64) -> bool {
    ||| offset == VIRTIO_MMIO_DEVICE_FEATURES_SEL
    ||| offset == VIRTIO_MMIO_DRIVER_FEATURES_SEL
    ||| offset == VIRTIO_MMIO_DRIVER_FEATURES
    ||| offset == VIRTIO_MMIO_QUEUE_SEL
    ||| offset == VIRTIO_MMIO_QUEUE_NUM
    ||| offset == VIRTIO_MMIO_QUEUE_READY
    ||| offset == VIRTIO_MMIO_QUEUE_DESC_LOW
    ||| offset == VIRTIO_MMIO_QUEUE_DESC_HIGH
    ||| offset == VIRTIO_MMIO_QUEUE_AVAIL_LOW
    ||| offset == VIRTIO_MMIO_QUEUE_AVAIL_HIGH
    ||| offset == VIRTIO_MMIO_QUEUE_USED_LOW
    ||| offset == VIRTIO_MMIO_QUEUE_USED_HIGH
    ||| offset == VIRTIO_MMIO_INTERRUPT_ACK
    ||| offset == VIRTIO_MMIO_STATUS
}

/// A write to a register that the driver may only read, or to no register, changes nothing; nor
/// does a notification.
pub proof fn other_writes_change_nothing(dev: VirtioBlk, offset: u64, val: u32)
    requires
        !keeps_writes(offset),
    ensures
        dev.after_write(offset, val) == dev,
{
}

/// Writes to different registers do not disturb each other, so their order does not matter; but for
/// the driver's features and their selector, which decides what word is written.
pub proof fn writes_commute(dev: VirtioBlk, a: u64, x: u32, b: u64, y: u32)
    requires
        a != b,
        !(a == VIRTIO_MMIO_DRIVER_FEATURES_SEL && b == VIRTIO_MMIO_DRIVER_FEATURES),
        !(b == VIRTIO_MMIO_DRIVER_FEATURES_SEL && a == VIRTIO_MMIO_DRIVER_FEATURES),
    ensures
        dev.after_write(a, x).after_write(b, y) == dev.after_write(b, y).after_write(a, x),
{
    queue_desc_from_halves(dev, x, y);
    queue_desc_from_halves(dev, y, x);
    queue_avail_from_halves(dev, x, y);
    queue_avail_from_halves(dev, y, x);
    queue_used_from_halves(dev, x, y);
    queue_used_from_halves(dev, y, x);
}

/// A driver that writes a value as four bytes writes that value, and one that reads four bytes of a
/// register reads its value.
pub proof fn four_byte_access_is_exact(val: u32)
    ensures
        written_value(crate::bytes::le4(val)) == val,
        crate::bytes::u32_at(read_bytes(val, 4), 0) == val,
{
}

/// Of a longer write only the first four bytes count.
pub proof fn long_writes_are_cut(data: Seq<u8>)
    requires
        data.len() >= 4,
    ensures
        written_value(data) == written_value(data.take(4)),
{
}

/// A device at power-on counts the whole sectors of its disk, and its driver has set nothing.
pub proof fn new_device_counts_whole_sectors(capacity_bytes: u64, dev: VirtioBlk)
    requires
        call_ensures(VirtioBlk::new, (capacity_bytes,), dev),
    ensures
        512 * dev.capacity_sectors <= capacity_bytes < 512 * (dev.capacity_sectors + 1),
        dev.status == 0 && dev.device_features_sel == 0 && dev.driver_features_sel == 0,
        dev.driver_features == 0 && dev.queue_sel == 0 && dev.queue_num == 0,
        dev.queue_ready == 0 && dev.queue_desc == 0 && dev.queue_avail == 0,
        dev.queue_used == 0 && dev.interrupt_status == 0,
{
}

/// The device offers its driver the modern interface, and nothing else.
pub proof fn modern_interface_is_offered(dev: &VirtioBlk, features: u64)
    requires
        call_ensures(VirtioBlk::device_features, (dev,), features),
    ensures
        features == 0x1_0000_0000,
{
}

/// What was read shows this value: each of the first four bytes is the value's digit in base 256,
/// least significant first, and the others are zero.
pub open spec fn shows(data: Seq<u8>, v: int) -> bool {
    forall|i: int|
        0 <= i < data.len() ==> #[trigger] data[i] == if i == 0 {
            v % 0x100
        } else if i == 1 {
            v / 0x100 % 0x100
        } else if i == 2 {
            v / 0x1_0000 % 0x100
        } else if i == 3 {
            v / 0x100_0000 % 0x100
        } else {
            0
        }
}

/// In every state the device says what it is: magic number, version, device type, vendor, and the
/// longest queue that it takes.
pub proof fn identity_reads(dev: &VirtioBlk, offset: u64, data: &mut [u8])
    requires
        call_ensures(VirtioBlk::read, (dev, offset, data), ()),
    ensures
        final(data)@.len() == old(data)@.len(),
        offset == 0x000 ==> shows(final(data)@, 0x7472_6976),
        offset == 0x004 ==> shows(final(data)@, 2),
        offset == 0x008 ==> shows(final(data)@, 2),
        offset == 0x00c ==> shows(final(data)@, 0x1234_5678),
        offset == 0x034 ==> shows(final(data)@, 256),
{
    read_shows_the_register(dev, offset, data);
}

/// A read gives the driver the features that it selected, the queue's ready flag, the pending
/// interrupts, the status and the two words of the capacity, whatever else the state is.
pub proof fn state_reads(dev: &VirtioBlk, offset: u64, data: &mut [u8])
    requires
        call_ensures(VirtioBlk::read, (dev, offset, data), ()),
    ensures
        offset == 0x010 && dev.device_features_sel == 0 ==> shows(final(data)@, 0),
        offset == 0x010 && dev.device_features_sel != 0 ==> shows(final(data)@, 1),
        offset == 0x044 ==> shows(final(data)@, dev.queue_ready as int),
        offset == 0x060 ==> shows(final(data)@, dev.interrupt_status as int),
        offset == 0x070 ==> shows(final(data)@, dev.status as int),
        offset == 0x100 ==> shows(final(data)@, dev.capacity_sectors as int % 0x1_0000_0000),
        offset == 0x104 ==> shows(final(data)@, dev.capacity_sectors as int / 0x1_0000_0000),
{
    read_shows_the_register(dev, offset, data);
}

/// Where there is no register to read, the guest reads zeros.
pub proof fn other_reads_are_zero(dev: &VirtioBlk, offset: u64, data: &mut [u8])
    requires
        call_ensures(VirtioBlk::read, (dev, offset, data), ()),
        offset != 0x000 && offset != 0x004 && offset != 0x008 && offset != 0x00c,
        offset != 0x010 && offset != 0x034 && offset != 0x044 && offset != 0x060,
        offset != 0x070 && offset != 0x100 && offset != 0x104,
    ensures
        final(data)@.len() == old(data)@.len(),
        forall|i: int| 0 <= i < final(data)@.len() ==> #[trigger] final(data)@[i] == 0,
{
}

proof fn read_shows_the_register(dev: &VirtioBlk, offset: u64, data: &mut [u8])
    requires
        call_ensures(VirtioBlk::read, (dev, offset, data), ()),
    ensures
        final(data)@.len() == old(data)@.len(),
        shows(final(data)@, dev.register(offset) as int),
{
    let v = dev.register(offset);
    assert(v / 0x100_0000 % 0x100 == v / 0x100_0000);
}

/// A driver that reads both words of the capacity of a new device learns how many whole sectors its
/// disk has.
pub proof fn driver_learns_the_disk_size(
    capacity_bytes: u64,
    dev: VirtioBlk,
    low: &mut [u8],
    high: &mut [u8],
)
    requires
        call_ensures(VirtioBlk::new, (capacity_bytes,), dev),
        call_ensures(VirtioBlk::read, (&dev, 0x100, low), ()),
        call_ensures(VirtioBlk::read, (&dev, 0x104, high), ()),
        old(low)@.len() == 4,
        old(high)@.len() == 4,
    ensures
        ({
            let sectors = crate::bytes::u32_at(final(low)@, 0) + 0x1_0000_0000
                * crate::bytes::u32_at(final(high)@, 0);
            512 * sectors <= capacity_bytes < 512 * (sectors + 1)
        }),
{
    capacity_from_config(dev);
    four_byte_access_is_exact(dev.register(0x100));
    four_byte_access_is_exact(dev.register(0x104));
}

/// The byte at index `i` of what was written, or zero where that was shorter.
pub open spec fn byte_or_zero(data: Seq<u8>, i: int) -> int {
    if i < data.len() {
        data[i] as int
    } else {
        0
    }
}

/// The bytes spell this value: the first four of them, least significant first, are its digits in
/// base 256, and where there are fewer its last digits are zero.
pub open spec fn spells(data: Seq<u8>, v: u32) -> bool {
    v == byte_or_zero(data, 0) + 0x100 * byte_or_zero(data, 1) + 0x1_0000 * byte_or_zero(data, 2)
        + 0x100_0000 * byte_or_zero(data, 3)
}

/// Some value is spelled by any bytes, and no other is.
pub proof fn bytes_spell_one_value(data: Seq<u8>, v: u32)
    ensures
        spells(data, written_value(data)),
        spells(data, v) <==> v == written_value(data),
{
    let padded = data + seq![0u8, 0u8, 0u8, 0u8];
    assert(padded[0] == byte_or_zero(data, 0));
    assert(padded[1] == byte_or_zero(data, 1));
    assert(padded[2] == byte_or_zero(data, 2));
    assert(padded[3] == byte_or_zero(data, 3));
}

/// Each register that the driver sets whole takes exactly the value that was written, whatever it
/// is and whatever the state, and nothing else changes.
pub proof fn whole_registers_take_what_is_written(
    dev: &mut VirtioBlk,
    offset: u64,
    data: &[u8],
    kick: Option<u32>,
    v: u32,
)
    requires
        call_ensures(VirtioBlk::write, (dev, offset, data), kick),
        spells(data@, v),
    ensures
        offset == 0x014 ==> *final(dev) == (VirtioBlk { device_features_sel: v, ..*old(dev) }),
        offset == 0x024 ==> *final(dev) == (VirtioBlk { driver_features_sel: v, ..*old(dev) }),
        offset == 0x030 ==> *final(dev) == (VirtioBlk { queue_sel: v, ..*old(dev) }),
        offset == 0x038 ==> *final(dev) == (VirtioBlk { queue_num: v, ..*old(dev) }),
        offset == 0x044 ==> *final(dev) == (VirtioBlk { queue_ready: v, ..*old(dev) }),
        offset == 0x070 ==> *final(dev) == (VirtioBlk { status: v, ..*old(dev) }),
{
    bytes_spell_one_value(data@, v);
}

/// A write to one word of a queue address sets that word and keeps the other; no other register
/// changes.
pub proof fn queue_addresses_take_words(
    dev: &mut VirtioBlk,
    offset: u64,
    data: &[u8],
    kick: Option<u32>,
    v: u32,
)
    requires
        call_ensures(VirtioBlk::write, (dev, offset, data), kick),
        spells(data@, v),
    ensures
        ({
            let high = offset == 0x084 || offset == 0x094 || offset == 0x0a4;
            &&& offset == 0x080 || offset == 0x084 ==> {
                &&& has_word(final(dev).queue_desc, old(dev).queue_desc, high, v)
                &&& *final(dev) == (VirtioBlk { queue_desc: final(dev).queue_desc, ..*old(dev) })
            }
            &&& offset == 0x090 || offset == 0x094 ==> {
                &&& has_word(final(dev).queue_avail, old(dev).queue_avail, high, v)
                &&& *final(dev) == (VirtioBlk { queue_avail: final(dev).queue_avail, ..*old(dev) })
            }
            &&& offset == 0x0a0 || offset == 0x0a4 ==> {
                &&& has_word(final(dev).queue_used, old(dev).queue_used, high, v)
                &&& *final(dev) == (VirtioBlk { queue_used: final(dev).queue_used, ..*old(dev) })
            }
        }),
{
    bytes_spell_one_value(data@, v);
}

/// `after` has the word `v`, high or low, and otherwise the word of `before`.
pub open spec fn has_word(after: u64, before: u64, high: bool, v: u32) -> bool {
    if high {
        after / 0x1_0000_0000 == v && after % 0x1_0000_0000 == before % 0x1_0000_0000
    } else {
        after % 0x1_0000_0000 == v && after / 0x1_0000_0000 == before / 0x1_0000_0000
    }
}

/// A write to the driver's features adds exactly the bits that were written, to the word that the
/// selector names: the low one where it is zero, the high one otherwise. No other register
/// changes.
pub proof fn driver_features_gain_what_is_written(
    dev: &mut VirtioBlk,
    data: &[u8],
    kick: Option<u32>,
    v: u32,
    bit: u64,
)
    requires
        call_ensures(VirtioBlk::write, (dev, 0x020, data), kick),
        spells(data@, v),
        bit < 64,
    ensures
        ({
            let was = (old(dev).driver_features >> bit) & 1 == 1;
            let is = (final(dev).driver_features >> bit) & 1 == 1;
            let low = (v as u64 >> bit) & 1 == 1;
            let high = bit >= 32 && (v as u64 >> (bit - 32) as u64) & 1 == 1;
            is <==> was || (if old(dev).driver_features_sel == 0 {
                low
            } else {
                high
            })
        }),
        *final(dev) == (VirtioBlk { driver_features: final(dev).driver_features, ..*old(dev) }),
{
    bytes_spell_one_value(data@, v);
    let f = old(dev).driver_features;
    let l = from_words(v, 0);
    let h = from_words(0, v);
    let w = v as u64;
    assert(l == w);
    assert(h == 0x1_0000_0000 * w);
    assert((((f | l) >> bit) & 1 == 1) <==> ((f >> bit) & 1 == 1 || (l >> bit) & 1 == 1))
        by (bit_vector);
    assert((((f | h) >> bit) & 1 == 1) <==> ((f >> bit) & 1 == 1 || (h >> bit) & 1 == 1))
        by (bit_vector);
    let up = (bit - 32) as u64;
    assert(bit < 32 ==> (h >> bit) & 1 == 0) by (bit_vector)
        requires
            h == 0x1_0000_0000 * w,
            w <= 0xffff_ffff,
    ;
    if bit >= 32 {
        assert((h >> bit) & 1 == (w >> up) & 1) by (bit_vector)
            requires
                h == 0x1_0000_0000 * w,
                w <= 0xffff_ffff,
                32 <= bit < 64,
                up == bit - 32,
        ;
    }
}

/// Acknowledging interrupts clears each that was written and keeps the others pending; no other
/// register changes.
pub proof fn acknowledged_interrupts_go(
    dev: &mut VirtioBlk,
    data: &[u8],
    kick: Option<u32>,
    v: u32,
)
    requires
        call_ensures(VirtioBlk::write, (dev, 0x064, data), kick),
        spells(data@, v),
    ensures
        final(dev).interrupt_status & v == 0,
        final(dev).interrupt_status | (old(dev).interrupt_status & v)
            == old(dev).interrupt_status,
        *final(dev) == (VirtioBlk { interrupt_status: final(dev).interrupt_status, ..*old(dev) }),
{
    bytes_spell_one_value(data@, v);
    let s = old(dev).interrupt_status;
    assert((s & !v) & v == 0 && (s & !v) | (s & v) == s) by (bit_vector);
}

/// The driver notifies a queue by writing its number at 0x050 and nowhere else; and such a write, or
/// one where there is no register to write, changes nothing.
pub proof fn notifications_come_from_one_register(
    dev: &mut VirtioBlk,
    offset: u64,
    data: &[u8],
    kick: Option<u32>,
    v: u32,
)
    requires
        call_ensures(VirtioBlk::write, (dev, offset, data), kick),
        spells(data@, v),
    ensures
        kick is Some <==> offset == 0x050,
        kick is Some ==> kick == Some(v),
        offset != 0x014 && offset != 0x020 && offset != 0x024 && offset != 0x030 && offset != 0x038
            && offset != 0x044 && offset != 0x064 && offset != 0x070 && offset != 0x080 && offset
            != 0x084 && offset != 0x090 && offset != 0x094 && offset != 0x0a0 && offset != 0x0a4
            ==> *final(dev) == *old(dev),
{
    bytes_spell_one_value(data@, v);
}

/// The status and the ready flag read back as the bytes that the driver last wrote.
pub proof fn writes_read_back(
    dev: &mut VirtioBlk,
    offset: u64,
    data: &[u8],
    kick: Option<u32>,
    out: &mut [u8],
)
    requires
        call_ensures(VirtioBlk::write, (dev, offset, data), kick),
        call_ensures(VirtioBlk::read, (&*final(dev), offset, out), ()),
        offset == 0x044 || offset == 0x070,
        data@.len() == 4,
        old(out)@.len() == 4,
    ensures
        final(out)@ == data@,
{
    crate::bytes::le4_of_u32_at(data@, 0);
    let padded = data@ + seq![0u8, 0u8, 0u8, 0u8];
    assert(crate::bytes::u32_at(padded, 0) == crate::bytes::u32_at(data@, 0));
    assert(data@.subrange(0, 4) =~= data@);
    assert(final(out)@ =~= data@);
}

} // verus!
