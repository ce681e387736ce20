//! What to do when a virtual processor leaves the guest.

use crate::cmdline::VIRTIO_BLK_BASE;
use crate::cmdline::VIRTIO_BLK_LEN;
use crate::virtio::VirtioBlk;
use vstd::prelude::*;

verus! {

broadcast use vstd::slice::group_slice_axioms;

/// The first port of the serial line.
pub const COM1_BASE: u16 = 0x3f8;
/// The number of ports of the serial line.
pub const COM1_PORTS: u16 = 8;

/// Why a virtual processor left the guest.
#[derive(Debug)]
pub enum Exit<'a> {
    /// The guest wrote these bytes to a port.
    IoOut(u16, &'a [u8]),
    /// The guest reads from a port.
    IoIn(u16),
    /// The guest reads so many bytes at an address without memory.
    MmioRead(u64, usize),
    /// The guest wrote these bytes to an address without memory.
    MmioWrite(u64, &'a [u8]),
    /// The guest halted.
    Hlt,
    /// The guest shut down.
    Shutdown,
    /// Anything else.
    Other,
}

/// What is to be done before the guest goes on.
#[derive(Debug, PartialEq, Eq)]
pub enum Action {
    /// Nothing.
    Resume,
    /// Write the value to the serial line's register.
    SerialWrite { offset: u8, value: u8 },
    /// Read the serial line's register and hand the guest its value.
    SerialRead { offset: u8 },
    /// Hand the guest these bytes.
    Reply(Vec<u8>),
    /// Say that this queue of the block device has work to do.
    Kick { queue: u32 },
    /// Say that the guest halted, and stop.
    StopHalted,
    /// Say that the guest shut down, and stop.
    StopShutdown,
    /// Say that the exit was not handled.
    ReportUnhandled,
}

/// Whether the port is one of the serial line's.
pub open spec fn is_serial(port: u16) -> bool {
    COM1_BASE <= port < COM1_BASE + COM1_PORTS
}

/// Whether the address is one of the block device's registers'.
pub open spec fn is_blk(addr: u64) -> bool {
    VIRTIO_BLK_BASE <= addr < VIRTIO_BLK_BASE + VIRTIO_BLK_LEN
}

/// The serial line's register at a port, where it is one of its ports.
pub fn serial_offset(port: u16) -> (offset: Option<u8>)
    ensures
        offset == (if is_serial(port) {
            Some((port - COM1_BASE) as u8)
        } else {
            None
        }),
{
    if COM1_BASE <= port && port < COM1_BASE + COM1_PORTS {
        Some((port - COM1_BASE) as u8)
    } else {
        None
    }
}

/// The block device's register at an address, where it is one of its addresses.
pub fn blk_offset(addr: u64) -> (offset: Option<u64>)
    ensures
        offset == (if is_blk(addr) {
            Some((addr - VIRTIO_BLK_BASE) as u64)
        } else {
            None
        }),
{
    if VIRTIO_BLK_BASE <= addr && addr < VIRTIO_BLK_BASE + VIRTIO_BLK_LEN {
        Some(addr - VIRTIO_BLK_BASE)
    } else {
        None
    }
}

/// What is left to do after an exit, once the block device has seen it.
pub open spec fn action_is(dev: VirtioBlk, exit: Exit<'_>, action: Action) -> bool {
    match exit {
        Exit::IoOut(port, data) => if is_serial(port) {
            action == (Action::SerialWrite {
                offset: (port - COM1_BASE) as u8,
                value: data@[0],
            })
        } else {
            action is Resume
        },
        Exit::IoIn(port) => if is_serial(port) {
            action == (Action::SerialRead { offset: (port - COM1_BASE) as u8 })
        } else {
            action is Resume
        },
        Exit::MmioRead(addr, len) => if is_blk(addr) {
            action is Reply && action->Reply_0@ == crate::virtio::read_bytes(
                dev.register((addr - VIRTIO_BLK_BASE) as u64),
                len as nat,
            )
        } else {
            action is Resume
        },
        Exit::MmioWrite(addr, data) => if is_blk(addr) && addr - VIRTIO_BLK_BASE
            == crate::virtio::VIRTIO_MMIO_QUEUE_NOTIFY {
            action == (Action::Kick { queue: crate::virtio::written_value(data@) })
        } else {
            action is Resume
        },
        Exit::Hlt => action is StopHalted,
        Exit::Shutdown => action is StopShutdown,
        Exit::Other => action is ReportUnhandled,
    }
}

/// The block device after it has seen an exit.
pub open spec fn device_after(dev: VirtioBlk, exit: Exit<'_>) -> VirtioBlk {
    match exit {
        Exit::MmioWrite(addr, data) if is_blk(addr) => dev.after_write(
            (addr - VIRTIO_BLK_BASE) as u64,
            crate::virtio::written_value(data@),
        ),
        _ => dev,
    }
}

/// Handles an exit: the block device takes its part, and what else is to be done is returned.
pub fn handle_exit(dev: &mut VirtioBlk, exit: Exit<'_>) -> (action: Action)
    requires
        exit matches Exit::IoOut(port, data) ==> is_serial(port) ==> data@.len() > 0,
    ensures
        *final(dev) == device_after(*old(dev), exit),
        action_is(*old(dev), exit, action),
{
    match exit {
        Exit::IoOut(port, data) => match serial_offset(port) {
            Some(offset) => Action::SerialWrite { offset, value: data[0] },
            None => Action::Resume,
        },
        Exit::IoIn(port) => match serial_offset(port) {
            Some(offset) => Action::SerialRead { offset },
            None => Action::Resume,
        },
        Exit::MmioRead(addr, len) => match blk_offset(addr) {
            Some(offset) => {
                let mut data: Vec<u8> = vec![0u8; len];
                dev.read(offset, data.as_mut_slice());
                Action::Reply(data)
            },
            None => Action::Resume,
        },
        Exit::MmioWrite(addr, data) => match blk_offset(addr) {
            Some(offset) => match dev.write(offset, data) {
                Some(queue) => Action::Kick { queue },
                None => Action::Resume,
            },
            None => Action::Resume,
        },
        Exit::Hlt => Action::StopHalted,
        Exit::Shutdown => Action::StopShutdown,
        Exit::Other => Action::ReportUnhandled,
    }
}

/// The guest is stopped exactly when it halted or shut down.
pub proof fn stops_exactly_on_halt_or_shutdown(dev: VirtioBlk, exit: Exit<'_>, action: Action)
    requires
        action_is(dev, exit, action),
    ensures
        action is StopHalted <==> exit is Hlt,
        action is StopShutdown <==> exit is Shutdown,
        action is ReportUnhandled <==> exit is Other,
{
}

/// The serial line's registers are reached through its eight ports, one each.
pub proof fn serial_registers_are_ports(dev: VirtioBlk, port: u16, action: Action)
    requires
        action_is(dev, Exit::IoIn(port), action),
    ensures
        forall|offset: u8|
            action == (Action::SerialRead { offset }) <==> offset < 8 && port == COM1_BASE
                + offset,
{
}

/// The block device changes only by what the guest writes to its own registers.
pub proof fn only_register_writes_change_the_device(dev: VirtioBlk, exit: Exit<'_>)
    ensures
        device_after(dev, exit) != dev ==> exit is MmioWrite && is_blk(exit->MmioWrite_0),
{
}

/// The serial line has the eight ports from 0x3f8 on, and the block device the page at 0xd000_0000;
/// each of their registers is as far from the first as its port or address is.
pub proof fn registers_are_reached_in_order(
    port: u16,
    serial: Option<u8>,
    addr: u64,
    blk: Option<u64>,
)
    requires
        call_ensures(serial_offset, (port,), serial),
        call_ensures(blk_offset, (addr,), blk),
    ensures
        serial is Some <==> 0x3f8 <= port <= 0x3ff,
        serial matches Some(offset) ==> port == 0x3f8 + offset,
        blk is Some <==> 0xd000_0000 <= addr <= 0xd000_0fff,
        blk matches Some(offset) ==> addr == 0xd000_0000 + offset,
{
}

/// What the guest writes to a port of the serial line is handed to the line, whatever the byte is: the
/// first byte, to the register that the port stands for. What it writes to another port goes
/// nowhere.
pub proof fn serial_output_is_handed_on(
    dev: &mut VirtioBlk,
    port: u16,
    data: &[u8],
    action: Action,
)
    requires
        call_ensures(handle_exit, (dev, Exit::IoOut(port, data)), action),
        0x3f8 <= port <= 0x3ff ==> data@.len() > 0,
    ensures
        forall|offset: u8, value: u8|
            action == (Action::SerialWrite { offset, value }) <==> offset < 8 && port == 0x3f8
                + offset && value == data@[0],
        !(0x3f8 <= port <= 0x3ff) ==> action is Resume,
        *final(dev) == *old(dev),
{
    if 0x3f8 <= port <= 0x3ff {
        assert(port == 0x3f8 + ((port - 0x3f8) as u8));
    }
}

/// What the guest reads from a port of the serial line comes from the register that the port stands
/// for; a read from another port is not answered.
pub proof fn serial_input_is_asked_for(dev: &mut VirtioBlk, port: u16, action: Action)
    requires
        call_ensures(handle_exit, (dev, Exit::IoIn(port)), action),
    ensures
        forall|offset: u8|
            action == (Action::SerialRead { offset }) <==> offset < 8 && port == 0x3f8 + offset,
        !(0x3f8 <= port <= 0x3ff) ==> action is Resume,
        *final(dev) == *old(dev),
{
    if 0x3f8 <= port <= 0x3ff {
        assert(port == 0x3f8 + ((port - 0x3f8) as u8));
    }
}

/// A guest that writes to the block device's page writes to the device, at every offset: the device
/// comes to what the write alone makes of it, and the notification that it gives, if any, is passed
/// on. A write to another address does nothing.
pub proof fn device_takes_every_write(
    dev: &mut VirtioBlk,
    addr: u64,
    data: &[u8],
    action: Action,
    alone: &mut VirtioBlk,
    offset: u64,
    kick: Option<u32>,
)
    requires
        call_ensures(handle_exit, (dev, Exit::MmioWrite(addr, data)), action),
        call_ensures(VirtioBlk::write, (alone, offset, data), kick),
        *old(alone) == *old(dev),
        0xd000_0000 <= addr <= 0xd000_0fff ==> addr == 0xd000_0000 + offset,
    ensures
        0xd000_0000 <= addr <= 0xd000_0fff ==> {
            &&& *final(dev) == *final(alone)
            &&& forall|queue: u32| action == (Action::Kick { queue }) <==> kick == Some(queue)
            &&& action is Resume <==> kick is None
        },
        !(0xd000_0000 <= addr <= 0xd000_0fff) ==> *final(dev) == *old(dev) && action is Resume,
{
}

/// A guest that reads in the block device's page is answered by the device, at every offset, with as
/// many bytes as it asked for: those that the read alone gives. A read elsewhere is not answered,
/// and no read changes the device.
pub proof fn device_answers_every_read(
    dev: &mut VirtioBlk,
    addr: u64,
    len: usize,
    action: Action,
    offset: u64,
    alone: &mut [u8],
)
    requires
        call_ensures(handle_exit, (dev, Exit::MmioRead(addr, len)), action),
        call_ensures(VirtioBlk::read, (&*old(dev), offset, alone), ()),
        old(alone)@.len() == len,
        0xd000_0000 <= addr <= 0xd000_0fff ==> addr == 0xd000_0000 + offset,
    ensures
        0xd000_0000 <= addr <= 0xd000_0fff ==> action is Reply && action->Reply_0@
            == final(alone)@,
        !(0xd000_0000 <= addr <= 0xd000_0fff) ==> action is Resume,
        *final(dev) == *old(dev),
{
}

/// Through its exits, the guest finds a block device of the modern kind, in every state.
pub proof fn guest_finds_a_block_device(dev: &mut VirtioBlk, addr: u64, action: Action)
    requires
        call_ensures(handle_exit, (dev, Exit::MmioRead(addr, 4)), action),
    ensures
        addr == 0xd000_0000 ==> action is Reply && action->Reply_0@ == seq![
            0x76u8,
            0x69,
            0x72,
            0x74,
        ],
        addr == 0xd000_0004 ==> action is Reply && action->Reply_0@ == seq![2u8, 0, 0, 0],
        addr == 0xd000_0008 ==> action is Reply && action->Reply_0@ == seq![2u8, 0, 0, 0],
        addr == 0xd000_000c ==> action is Reply && action->Reply_0@ == seq![
            0x78u8,
            0x56,
            0x34,
            0x12,
        ],
        addr == 0xd000_0034 ==> action is Reply && action->Reply_0@ == seq![0u8, 1, 0, 0],
{
}

/// What the guest writes to the status or the ready flag it reads back, byte for byte.
pub proof fn guest_reads_back_what_it_wrote(
    dev: &mut VirtioBlk,
    addr: u64,
    data: &[u8],
    wrote: Action,
    then: &mut VirtioBlk,
    read: Action,
)
    requires
        call_ensures(handle_exit, (dev, Exit::MmioWrite(addr, data)), wrote),
        call_ensures(handle_exit, (then, Exit::MmioRead(addr, 4)), read),
        *old(then) == *final(dev),
        addr == 0xd000_0044 || addr == 0xd000_0070,
        data@.len() == 4,
    ensures
        wrote is Resume,
        read is Reply && read->Reply_0@ == data@,
{
    crate::bytes::le4_of_u32_at(data@, 0);
    let padded = data@ + seq![0u8, 0u8, 0u8, 0u8];
    assert(crate::bytes::u32_at(padded, 0) == crate::bytes::u32_at(data@, 0));
    assert(data@.subrange(0, 4) =~= data@);
    assert(read->Reply_0@ =~= data@);
}

/// A guest that selects a word of the features and reads it finds the modern interface offered in
/// every word but the first, and nothing in the first.
pub proof fn guest_finds_the_modern_interface(
    dev: &mut VirtioBlk,
    data: &[u8],
    wrote: Action,
    then: &mut VirtioBlk,
    read: Action,
)
    requires
        call_ensures(handle_exit, (dev, Exit::MmioWrite(0xd000_0014, data)), wrote),
        call_ensures(handle_exit, (then, Exit::MmioRead(0xd000_0010, 4)), read),
        *old(then) == *final(dev),
        data@.len() == 4,
    ensures
        wrote is Resume,
        read is Reply,
        data@ == seq![0u8, 0, 0, 0] ==> read->Reply_0@ == seq![0u8, 0, 0, 0],
        data@ != seq![0u8, 0, 0, 0] ==> read->Reply_0@ == seq![1u8, 0, 0, 0],
{
    let v = crate::virtio::written_value(data@);
    crate::virtio::bytes_spell_one_value(data@, v);
    if v == 0 {
        assert(data@ =~= seq![0u8, 0, 0, 0]);
    }
    assert(read->Reply_0@ =~= if v == 0 {
        seq![0u8, 0, 0, 0]
    } else {
        seq![1u8, 0, 0, 0]
    });
}

/// The guest is stopped when it halts or shuts down, and then only; an exit of another kind is
/// reported. None of these touches the device.
pub proof fn guest_stops_when_it_halts(dev: &mut VirtioBlk, exit: Exit<'_>, action: Action)
    requires
        call_ensures(handle_exit, (dev, exit), action),
    ensures
        action is StopHalted <==> exit is Hlt,
        action is StopShutdown <==> exit is Shutdown,
        action is ReportUnhandled <==> exit is Other,
        exit is Hlt || exit is Shutdown || exit is Other ==> *final(dev) == *old(dev),
{
}

} // verus!
