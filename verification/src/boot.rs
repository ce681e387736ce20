//! Putting the boot image together in guest memory.

use crate::bootparams::boot_params;
use crate::bootparams::BootParams;
use crate::bootparams::CMDLINE_SIZE_OFFSET;
use crate::bootparams::CMDLINE_START;
use crate::bootparams::CMD_LINE_PTR_OFFSET;
use crate::bootparams::HIMEM_START;
use crate::bootparams::RAMDISK_IMAGE_OFFSET;
use crate::bootparams::RAMDISK_SIZE_OFFSET;
use crate::bootparams::ZERO_PAGE_SIZE;
use crate::bootparams::ZERO_PAGE_START;
use crate::bytes::low_bits;
use crate::bytes::low_u32;
use crate::bytes::overwrite;
use crate::bytes::u32_at;
use crate::cmdline::ascii_bytes;
use crate::cmdline::is_printable;
use crate::cmdline::kernel_text;
use crate::cmdline::CmdlineError;
use crate::cmdline::InsertError;
use crate::cmdline::KernelCmdline;
use crate::cmdline::CMDLINE_CAPACITY;
use crate::gdt::write_gdt;
use crate::memory::GuestRam;
use crate::memory::MemoryError;
use crate::paging::write_page_tables;
use vstd::prelude::*;

verus! {

/// The number of bytes in `mem_mib` MiB; bits that a machine integer has no place for are lost.
pub fn mem_size(mem_mib: usize) -> (size: usize)
    ensures
        size == (0x10_0000 * mem_mib) % (usize::MAX + 1),
        0x10_0000 * mem_mib <= usize::MAX ==> size == 0x10_0000 * mem_mib,
{
    assert(usize::BITS == 64 ==> mem_mib << 20 == (0x10_0000 * mem_mib)
        % 0x1_0000_0000_0000_0000) by (bit_vector);
    assert(usize::BITS == 32 ==> mem_mib << 20 == (0x10_0000 * mem_mib) % 0x1_0000_0000)
        by (bit_vector);
    assert(usize::BITS == 64 || usize::BITS == 32);
    mem_mib << 20
}

/// Where an initramfs of `initrd_size` bytes goes in a memory of `mem_size` bytes: as high as it
/// can, at the start of a page.
pub open spec fn initrd_place(mem_size: int, initrd_size: int) -> int {
    (mem_size - initrd_size) / 0x1000 * 0x1000
}

/// Finds the place of an initramfs.
pub fn initrd_address(mem_size: usize, initrd_size: usize) -> (addr: usize)
    requires
        initrd_size <= mem_size,
    ensures
        addr == initrd_place(mem_size as int, initrd_size as int),
{
    let room: usize = mem_size - initrd_size;
    assert(room & !0xfffusize == room / 0x1000 * 0x1000) by (bit_vector);
    room & !0xfff_usize
}

/// Copies an initramfs into guest memory. Returns where it starts.
pub fn load_initrd(ram: &mut GuestRam, initrd: &[u8]) -> (r: Result<usize, MemoryError>)
    requires
        old(ram).wf(),
        initrd@.len() <= old(ram)@.len(),
    ensures
        final(ram).wf(),
        r is Ok,
        r->Ok_0 == initrd_place(old(ram)@.len() as int, initrd@.len() as int),
        final(ram)@ == overwrite(old(ram)@, r->Ok_0 as int, initrd@),
{
    let addr = initrd_address(ram.size(), initrd.len());
    match ram.write_slice(initrd, addr as u64) {
        Ok(()) => Ok(addr),
        Err(e) => Err(e),
    }
}

/// Copies the command line to its place in guest memory.
pub fn load_cmdline(ram: &mut GuestRam, cmdline: &KernelCmdline) -> (r: Result<(), MemoryError>)
    requires
        old(ram).wf(),
        cmdline.wf(),
    ensures
        final(ram).wf(),
        r is Ok <==> CMDLINE_START + cmdline@.len() + 1 <= old(ram)@.len(),
        final(ram)@ == if r is Ok {
            with_cmdline(old(ram)@, cmdline@)
        } else {
            old(ram)@
        },
        r matches Err(e) ==> e is Cmdline,
{
    ram.write_cmdline(cmdline, CMDLINE_START)
}

/// Copies the boot parameters to their place in guest memory.
pub fn write_boot_params(ram: &mut GuestRam, params: &BootParams) -> (r: Result<(), MemoryError>)
    requires
        old(ram).wf(),
    ensures
        final(ram).wf(),
        r is Ok <==> ZERO_PAGE_START + ZERO_PAGE_SIZE < old(ram)@.len(),
        final(ram)@ == if r is Ok {
            with_boot_params(old(ram)@, *params)
        } else {
            old(ram)@
        },
        r matches Err(e) ==> e is BootParams,
{
    ram.write_boot_header(params.to_zero_page(), ZERO_PAGE_START)
}

/// Why the boot image could not be put together.
#[derive(Debug)]
pub enum BootError {
    /// There is no command line.
    Cmdline(CmdlineError),
    /// Guest memory could not be written.
    Memory(MemoryError),
}

/// Puts the command line for the user's arguments, and boot parameters that describe the guest, into
/// guest memory. The guest's initramfs has `initrd_size` bytes and starts at `initrd_addr`.
pub fn load_parameters(
    ram: &mut GuestRam,
    initrd_addr: usize,
    initrd_size: usize,
    args: &str,
) -> (r: Result<BootParams, BootError>)
    requires
        old(ram).wf(),
        old(ram)@.len() >= HIMEM_START,
    ensures
        final(ram).wf(),
        ({
            let text = kernel_text(args@);
            if !is_printable(text) {
                &&& r == Err::<BootParams, _>(
                    BootError::Cmdline(CmdlineError::Insert(InsertError::InvalidAscii)),
                )
                &&& final(ram)@ == old(ram)@
            } else if text.len() >= CMDLINE_CAPACITY {
                &&& r == Err::<BootParams, _>(
                    BootError::Cmdline(CmdlineError::Insert(InsertError::TooLarge)),
                )
                &&& final(ram)@ == old(ram)@
            } else {
                &&& r is Ok
                &&& r->Ok_0.describe(
                    old(ram)@.len() as int,
                    initrd_addr as int,
                    initrd_size as int,
                    text.len() as int,
                )
                &&& final(ram)@ == with_boot_params(
                    with_cmdline(old(ram)@, ascii_bytes(text)),
                    r->Ok_0,
                )
            }
        }),
{
    let cmdline = match KernelCmdline::new(args) {
        Ok(c) => c,
        Err(e) => {
            return Err(BootError::Cmdline(e));
        },
    };
    match load_cmdline(ram, &cmdline) {
        Ok(()) => {},
        Err(e) => {
            return Err(BootError::Memory(e));
        },
    }
    let cmdline_len = match cmdline.len() {
        Ok(n) => n,
        Err(e) => {
            return Err(BootError::Cmdline(e));
        },
    };
    let params = boot_params(ram.size(), initrd_addr, initrd_size, cmdline_len);
    match write_boot_params(ram, &params) {
        Ok(()) => Ok(params),
        Err(e) => Err(BootError::Memory(e)),
    }
}

/// Puts everything that a guest boots from into its memory, but for the kernel itself. Returns the
/// boot parameters.
pub fn load_boot_image(ram: &mut GuestRam, initrd: &[u8], args: &str) -> (r: Result<
    BootParams,
    BootError,
>)
    requires
        old(ram).wf(),
        old(ram)@.len() >= HIMEM_START,
        initrd@.len() <= old(ram)@.len(),
    ensures
        final(ram).wf(),
        ({
            let text = kernel_text(args@);
            let at = initrd_place(old(ram)@.len() as int, initrd@.len() as int);
            if !is_printable(text) {
                &&& r == Err::<BootParams, _>(
                    BootError::Cmdline(CmdlineError::Insert(InsertError::InvalidAscii)),
                )
                &&& final(ram)@ == overwrite(old(ram)@, at, initrd@)
            } else if text.len() >= CMDLINE_CAPACITY {
                &&& r == Err::<BootParams, _>(
                    BootError::Cmdline(CmdlineError::Insert(InsertError::TooLarge)),
                )
                &&& final(ram)@ == overwrite(old(ram)@, at, initrd@)
            } else {
                &&& r is Ok
                &&& r->Ok_0.describe(
                    old(ram)@.len() as int,
                    at,
                    initrd@.len() as int,
                    text.len() as int,
                )
                &&& final(ram)@ == booted(old(ram)@, initrd@, ascii_bytes(text), r->Ok_0)
            }
        }),
{
    let initrd_addr = match load_initrd(ram, initrd) {
        Ok(addr) => addr,
        Err(e) => {
            return Err(BootError::Memory(e));
        },
    };
    let params = match load_parameters(ram, initrd_addr, initrd.len(), args) {
        Ok(p) => p,
        Err(e) => {
            return Err(e);
        },
    };
    match write_page_tables(ram) {
        Ok(()) => {},
        Err(e) => {
            return Err(BootError::Memory(e));
        },
    }
    proof {
        reveal(booted);
    }
    match write_gdt(ram) {
        Ok(()) => Ok(params),
        Err(e) => Err(BootError::Memory(e)),
    }
}

/// Guest memory with a command line and its terminator written over it.
pub open spec fn with_cmdline(ram: Seq<u8>, text: Seq<u8>) -> Seq<u8> {
    overwrite(ram, CMDLINE_START as int, text.push(0))
}

/// Guest memory with boot parameters written over it.
pub open spec fn with_boot_params(ram: Seq<u8>, params: BootParams) -> Seq<u8> {
    overwrite(ram, ZERO_PAGE_START as int, crate::bootparams::zero_page(params))
}

/// A range of guest memory as the hypervisor takes it.
#[derive(Clone, Copy, Debug, PartialEq, Eq, Structural)]
pub struct MemorySlot {
    pub slot: u32,
    pub guest_phys_addr: u64,
    pub memory_size: u64,
    pub userspace_addr: u64,
    pub flags: u32,
}

/// Describes the region with the given index, which starts at `guest_phys_addr` in the guest and at
/// `userspace_addr` in the host. A region's slot is the low thirty-two bits of its index.
pub fn memory_slot(
    index: usize,
    guest_phys_addr: u64,
    memory_size: u64,
    userspace_addr: u64,
) -> (slot: MemorySlot)
    ensures
        slot == (MemorySlot {
            slot: low_bits(index as int),
            guest_phys_addr,
            memory_size,
            userspace_addr,
            flags: 0,
        }),
{
    MemorySlot { slot: low_u32(index), guest_phys_addr, memory_size, userspace_addr, flags: 0 }
}

/// An initramfs that is not larger than the memory lies within it, on a page boundary, and no
/// page boundary above would do.
pub proof fn initrd_is_in_memory(mem_size: int, initrd_size: int)
    requires
        0 <= initrd_size <= mem_size,
    ensures
        ({
            let at = initrd_place(mem_size, initrd_size);
            &&& 0 <= at
            &&& at + initrd_size <= mem_size
            &&& at % 0x1000 == 0
            &&& at + 0x1000 + initrd_size > mem_size
        }),
{
}

/// The memory of a guest after everything that it boots from has been put there, in order.
#[verifier::opaque]
pub open spec fn booted(
    ram: Seq<u8>,
    initrd: Seq<u8>,
    text: Seq<u8>,
    params: BootParams,
) -> Seq<u8> {
    let ram = overwrite(ram, initrd_place(ram.len() as int, initrd.len() as int), initrd);
    let ram = with_cmdline(ram, text);
    let ram = with_boot_params(ram, params);
    let ram = crate::paging::with_page_tables(ram);
    crate::gdt::with_gdt(ram)
}

/// The byte at `k` is written after the initramfs: it belongs to a command line of `cmdline_len`
/// bytes or its terminator, to the boot parameters, to an entry of the page tables or to the
/// descriptor table.
pub open spec fn is_taken(k: int, cmdline_len: int) -> bool {
    ||| CMDLINE_START <= k <= CMDLINE_START + cmdline_len
    ||| ZERO_PAGE_START <= k < ZERO_PAGE_START + ZERO_PAGE_SIZE
    ||| crate::paging::PML4_START <= k < crate::paging::PML4_START + 8
    ||| crate::paging::PDPTE_START <= k < crate::paging::PDPTE_START + 8
    ||| crate::paging::PDE_START <= k < crate::paging::PDE_START + 8 * crate::paging::TABLE_ENTRIES
    ||| crate::gdt::BOOT_GDT_OFFSET <= k < crate::gdt::BOOT_GDT_OFFSET + 24
}

/// What the guest boots from does not get in its own way: after the last write, the command line,
/// the boot parameters, the page tables and the descriptor table are all in guest memory as they
/// were put there, whatever the memory held before; and so is the initramfs, where none of its
/// bytes is taken by one of these. It is enough that it starts past the command line.
pub proof fn boot_image_is_whole(ram: Seq<u8>, initrd: Seq<u8>, text: Seq<u8>, params: BootParams)
    requires
        ram.len() > CMDLINE_START + text.len(),
        initrd.len() <= ram.len(),
    ensures
        ({
            let out = booted(ram, initrd, text, params);
            let at = initrd_place(ram.len() as int, initrd.len() as int);
            &&& out.len() == ram.len()
            &&& out.subrange(CMDLINE_START as int, CMDLINE_START + text.len()) == text
            &&& out[CMDLINE_START + text.len()] == 0
            &&& out.subrange(ZERO_PAGE_START as int, ZERO_PAGE_START + ZERO_PAGE_SIZE)
                == crate::bootparams::zero_page(params)
            &&& crate::paging::has_page_tables(out)
            &&& out.subrange(
                crate::gdt::BOOT_GDT_OFFSET as int,
                crate::gdt::BOOT_GDT_OFFSET + 24,
            ) == crate::gdt::gdt_bytes()
            &&& (forall|k: int|
                at <= k < at + initrd.len() ==> !#[trigger] is_taken(k, text.len() as int))
                ==> out.subrange(at, at + initrd.len()) == initrd
            &&& at > CMDLINE_START + text.len() ==> out.subrange(at, at + initrd.len()) == initrd
        }),
{
    reveal(booted);
    let at = initrd_place(ram.len() as int, initrd.len() as int);
    let ram1 = overwrite(ram, at, initrd);
    let ram2 = with_cmdline(ram1, text);
    let ram3 = with_boot_params(ram2, params);
    let ram4 = crate::paging::with_page_tables(ram3);
    let out = crate::gdt::with_gdt(ram4);
    crate::bootparams::zero_page_header_reads_back(params);
    crate::paging::page_tables_are_written(ram3);
    assert(crate::paging::has_page_tables(out)) by {
        let four = crate::paging::PML4_START as int;
        let three = crate::paging::PDPTE_START as int;
        crate::bytes::u64_at_is_local(out, ram4, four);
        crate::bytes::u64_at_is_local(out, ram4, three);
        assert forall|i: int| 0 <= i < crate::paging::TABLE_ENTRIES implies #[trigger]
            crate::bytes::u64_at(out, crate::paging::PDE_START + 8 * i)
            == crate::paging::page_entry(i) by {
            crate::bytes::u64_at_is_local(out, ram4, crate::paging::PDE_START + 8 * i);
        }
    }
    assert(out.subrange(CMDLINE_START as int, CMDLINE_START + text.len()) =~= text);
    assert(out.subrange(ZERO_PAGE_START as int, ZERO_PAGE_START + ZERO_PAGE_SIZE)
        =~= crate::bootparams::zero_page(params));
    assert(out.subrange(crate::gdt::BOOT_GDT_OFFSET as int, crate::gdt::BOOT_GDT_OFFSET + 24)
        =~= crate::gdt::gdt_bytes());
    if forall|k: int|
        at <= k < at + initrd.len() ==> !#[trigger] is_taken(k, text.len() as int) {
        initrd_is_in_memory(ram.len() as int, initrd.len() as int);
        assert forall|k: int| at <= k < at + initrd.len() implies out[k] == initrd[k - at] by {
            assert(!is_taken(k, text.len() as int));
            boot_image_keeps_the_rest(ram, initrd, text, params, k);
        }
        assert(out.subrange(at, at + initrd.len()) =~= initrd);
    }
}

/// These boot parameters stand in this memory at `zero_page`.
pub open spec fn holds_params(ram: Seq<u8>, zero_page: int, params: BootParams) -> bool {
    ram.subrange(zero_page, zero_page + ZERO_PAGE_SIZE) == crate::bootparams::zero_page(params)
}

/// In this memory the boot parameters at `zero_page` lead to a command line, with its terminator.
pub open spec fn leads_to_cmdline(ram: Seq<u8>, zero_page: int, text: Seq<u8>) -> bool {
    let line = u32_at(ram, zero_page + CMD_LINE_PTR_OFFSET);
    let size = u32_at(ram, zero_page + CMDLINE_SIZE_OFFSET);
    &&& line + size <= ram.len()
    &&& ram.subrange(line, line + size) == text.push(0)
}

/// In this memory the boot parameters at `zero_page` lead to an initramfs.
pub open spec fn leads_to_initrd(ram: Seq<u8>, zero_page: int, initrd: Seq<u8>) -> bool {
    let image = u32_at(ram, zero_page + RAMDISK_IMAGE_OFFSET);
    let size = u32_at(ram, zero_page + RAMDISK_SIZE_OFFSET);
    &&& image + size <= ram.len()
    &&& ram.subrange(image, image + size) == initrd
}

/// Boot parameters that describe the guest lead its kernel to everything that it boots from. Started
/// as [`crate::registers`] says, the kernel finds the boot parameters where a register points, at
/// an address that the page tables map to itself; through them its command line; and through them
/// its initramfs, where that starts past the command line and the header has room for its address
/// and size.
pub proof fn kernel_finds_what_it_boots_from(
    ram: Seq<u8>,
    initrd: Seq<u8>,
    text: Seq<u8>,
    params: BootParams,
    sregs: crate::registers::SpecialRegisters,
    regs: crate::registers::Registers,
    entry: u64,
)
    requires
        ram.len() >= HIMEM_START,
        text.len() < CMDLINE_CAPACITY,
        initrd.len() <= ram.len(),
        params.describe(
            ram.len() as int,
            initrd_place(ram.len() as int, initrd.len() as int),
            initrd.len() as int,
            text.len() as int,
        ),
    ensures
        ({
            let out = booted(ram, initrd, text, params);
            let at = initrd_place(ram.len() as int, initrd.len() as int);
            let root = crate::registers::long_mode(sregs).cr3 as int;
            let zero_page = crate::registers::at_entry(regs, entry).rsi as int;
            &&& crate::paging::translate(out, root, zero_page) == Some(
                crate::paging::Translation { address: zero_page, writable: true },
            )
            &&& holds_params(out, zero_page, params)
            &&& leads_to_cmdline(out, zero_page, text)
            &&& CMDLINE_START + text.len() < at < 0x1_0000_0000 && initrd.len()
                < 0x1_0000_0000 ==> leads_to_initrd(out, zero_page, initrd)
        }),
{
    let at = initrd_place(ram.len() as int, initrd.len() as int);
    boot_image_is_whole(ram, initrd, text, params);
    header_is_found(booted(ram, initrd, text, params), params);
    cmdline_is_found(booted(ram, initrd, text, params), text);
    initrd_is_found(booted(ram, initrd, text, params), initrd, at);
    crate::registers::long_mode_sees_identity(
        booted(ram, initrd, text, params),
        sregs,
        ZERO_PAGE_START as int,
    );
}

proof fn header_is_found(out: Seq<u8>, params: BootParams)
    requires
        out.len() >= ZERO_PAGE_START + ZERO_PAGE_SIZE,
        out.subrange(ZERO_PAGE_START as int, ZERO_PAGE_START + ZERO_PAGE_SIZE)
            == crate::bootparams::zero_page(params),
    ensures
        u32_at(out, ZERO_PAGE_START + CMD_LINE_PTR_OFFSET) == params.hdr.cmd_line_ptr,
        u32_at(out, ZERO_PAGE_START + CMDLINE_SIZE_OFFSET) == params.hdr.cmdline_size,
        u32_at(out, ZERO_PAGE_START + RAMDISK_IMAGE_OFFSET) == params.hdr.ramdisk_image,
        u32_at(out, ZERO_PAGE_START + RAMDISK_SIZE_OFFSET) == params.hdr.ramdisk_size,
{
    crate::bootparams::zero_page_header_reads_back(params);
}

proof fn cmdline_is_found(out: Seq<u8>, text: Seq<u8>)
    requires
        out.len() > CMDLINE_START + text.len(),
        text.len() < CMDLINE_CAPACITY,
        u32_at(out, ZERO_PAGE_START + CMD_LINE_PTR_OFFSET) == CMDLINE_START as u32,
        u32_at(out, ZERO_PAGE_START + CMDLINE_SIZE_OFFSET) == (low_bits(text.len() as int)
            + 1) as u32,
        out.subrange(CMDLINE_START as int, CMDLINE_START + text.len()) == text,
        out[CMDLINE_START + text.len()] == 0,
    ensures
        leads_to_cmdline(out, ZERO_PAGE_START as int, text),
{
    let start = CMDLINE_START as int;
    assert(out.subrange(start, start + text.len() + 1) =~= out.subrange(
        start,
        start + text.len(),
    ).push(0));
}

proof fn initrd_is_found(out: Seq<u8>, initrd: Seq<u8>, at: int)
    requires
        0 <= at,
        at + initrd.len() <= out.len(),
        u32_at(out, ZERO_PAGE_START + RAMDISK_IMAGE_OFFSET) == low_bits(at),
        u32_at(out, ZERO_PAGE_START + RAMDISK_SIZE_OFFSET) == low_bits(initrd.len() as int),
    ensures
        at < 0x1_0000_0000 && initrd.len() < 0x1_0000_0000 && out.subrange(at, at + initrd.len())
            == initrd ==> leads_to_initrd(out, ZERO_PAGE_START as int, initrd),
{
}

/// Each byte that is written after the initramfs aside, the boot image has the initramfs in its place
/// and leaves all other memory as it was. So a kernel that was loaded past the command line and
/// below the initramfs is still there.
pub proof fn boot_image_keeps_the_rest(
    ram: Seq<u8>,
    initrd: Seq<u8>,
    text: Seq<u8>,
    params: BootParams,
    k: int,
)
    requires
        0 <= k < ram.len(),
        !is_taken(k, text.len() as int),
    ensures
        ({
            let at = initrd_place(ram.len() as int, initrd.len() as int);
            booted(ram, initrd, text, params)[k] == if at <= k < at + initrd.len() {
                initrd[k - at]
            } else {
                ram[k]
            }
        }),
{
    reveal(booted);
}

/// The boot structures, and the boot stack below its top, are apart from each other and in memory
/// that the memory map declares usable; the block device's registers are past every address that
/// the boot page tables map.
pub proof fn boot_layout_is_apart()
    ensures
        crate::gdt::BOOT_GDT_OFFSET + 24 <= ZERO_PAGE_START,
        ZERO_PAGE_START + ZERO_PAGE_SIZE < crate::registers::BOOT_STACK,
        crate::registers::BOOT_STACK <= crate::paging::PML4_START,
        crate::paging::PML4_START + 0x1000 <= crate::paging::PDPTE_START,
        crate::paging::PDPTE_START + 0x1000 <= crate::paging::PDE_START,
        crate::paging::PDE_START + 0x1000 <= CMDLINE_START,
        CMDLINE_START + CMDLINE_CAPACITY <= crate::bootparams::EBDA_START,
        crate::bootparams::EBDA_START < crate::bootparams::HIMEM_START,
        crate::cmdline::VIRTIO_BLK_BASE >= 0x4000_0000,
{
}

/// Memory is counted in MiB: as many bytes as there are in them, where a machine integer can hold
/// that.
pub proof fn memory_is_counted_in_mib(mem_mib: usize, size: usize)
    requires
        call_ensures(mem_size, (mem_mib,), size),
    ensures
        1048576 * mem_mib <= usize::MAX ==> size == 1048576 * mem_mib,
        (1048576 * mem_mib - size) % (usize::MAX + 1) == 0,
{
    let whole: int = 1048576 * mem_mib;
    if usize::BITS == 64 {
        assert(usize::MAX + 1 == 0x1_0000_0000_0000_0000);
        assert((whole - whole % 0x1_0000_0000_0000_0000) % 0x1_0000_0000_0000_0000 == 0);
    } else {
        assert(usize::MAX + 1 == 0x1_0000_0000);
        assert((whole - whole % 0x1_0000_0000) % 0x1_0000_0000 == 0);
    }
}

/// An initramfs is placed on a page boundary, within memory, and as high as that allows.
pub proof fn initramfs_is_placed_as_high_as_it_can(mem_size: usize, initrd_size: usize, at: usize)
    requires
        call_ensures(initrd_address, (mem_size, initrd_size), at),
        initrd_size <= mem_size,
    ensures
        at % 4096 == 0,
        at + initrd_size <= mem_size < at + initrd_size + 4096,
{
}

/// A region is handed to the hypervisor as it is, without flags, in the slot with its number.
pub proof fn slot_describes_its_region(
    index: usize,
    guest_phys_addr: u64,
    memory_size: u64,
    userspace_addr: u64,
    slot: MemorySlot,
)
    requires
        call_ensures(memory_slot, (index, guest_phys_addr, memory_size, userspace_addr), slot),
    ensures
        (slot.slot - index) % 0x1_0000_0000 == 0,
        slot.guest_phys_addr == guest_phys_addr,
        slot.memory_size == memory_size,
        slot.userspace_addr == userspace_addr,
        slot.flags == 0,
{
}

/// An initramfs that memory can hold is loaded, whole, on a page boundary as high as that allows, and
/// nothing else changes.
pub proof fn initramfs_is_loaded(
    ram: &mut GuestRam,
    initrd: &[u8],
    r: Result<usize, MemoryError>,
    k: int,
)
    requires
        call_ensures(load_initrd, (ram, initrd), r),
        initrd@.len() <= old(ram)@.len(),
        0 <= k < old(ram)@.len(),
    ensures
        r is Ok,
        r->Ok_0 % 4096 == 0,
        r->Ok_0 + initrd@.len() <= old(ram)@.len() < r->Ok_0 + initrd@.len() + 4096,
        final(ram)@.len() == old(ram)@.len(),
        final(ram)@[k] == if r->Ok_0 <= k < r->Ok_0 + initrd@.len() {
            initrd@[k - r->Ok_0]
        } else {
            old(ram)@[k]
        },
{
}

/// A command line is loaded at 0x2_0000, with a zero byte after it, or not at all where memory ends
/// before that byte.
pub proof fn command_line_is_loaded(
    ram: &mut GuestRam,
    cmdline: &KernelCmdline,
    r: Result<(), MemoryError>,
    k: int,
)
    requires
        call_ensures(load_cmdline, (ram, cmdline), r),
        0 <= k < old(ram)@.len(),
    ensures
        r is Ok <==> 0x2_0000 + cmdline@.len() < old(ram)@.len(),
        r matches Err(e) ==> e is Cmdline,
        final(ram)@.len() == old(ram)@.len(),
        r is Ok && 0x2_0000 <= k < 0x2_0000 + cmdline@.len() ==> final(ram)@[k] == cmdline@[k
            - 0x2_0000],
        r is Ok && k == 0x2_0000 + cmdline@.len() ==> final(ram)@[k] == 0,
        r is Err || k < 0x2_0000 || k > 0x2_0000 + cmdline@.len() ==> final(ram)@[k]
            == old(ram)@[k],
{
}

/// Boot parameters are loaded at 0x7000, as the page that they are laid out in, or not at all where
/// memory does not go on past that page.
pub proof fn boot_parameters_are_loaded(
    ram: &mut GuestRam,
    params: &BootParams,
    r: Result<(), MemoryError>,
    page: Vec<u8>,
    k: int,
)
    requires
        call_ensures(write_boot_params, (ram, params), r),
        call_ensures(BootParams::to_zero_page, (params,), page),
        0 <= k < old(ram)@.len(),
    ensures
        r is Ok <==> old(ram)@.len() > 0x8000,
        r matches Err(e) ==> e is BootParams,
        final(ram)@.len() == old(ram)@.len(),
        r is Ok && 0x7000 <= k < 0x8000 ==> final(ram)@[k] == page@[k - 0x7000],
        r is Err || !(0x7000 <= k < 0x8000) ==> final(ram)@[k] == old(ram)@[k],
{
}

/// These are the bytes of the text.
pub open spec fn are_bytes_of(bytes: Seq<u8>, text: Seq<char>) -> bool {
    &&& bytes.len() == text.len()
    &&& forall|i: int| 0 <= i < text.len() ==> #[trigger] bytes[i] == text[i] as int
}

proof fn text_has_bytes(text: Seq<char>)
    requires
        is_printable(text),
    ensures
        are_bytes_of(ascii_bytes(text), text),
{
    assert forall|i: int| 0 <= i < text.len() implies #[trigger] ascii_bytes(text)[i]
        == text[i] as int by {
        assert(' ' <= text[i] <= '~');
    }
}

/// Parameters are loaded for all arguments that are printable ASCII, past the white space before them,
/// and leave the command line under 64 KiB with its terminator. Memory then has what the kernel is to
/// read at 0x2_0000, with a zero byte after it, and the page that the parameters are laid out in at
/// 0x7000, and is otherwise as it was.
pub proof fn parameters_are_loaded(
    ram: &mut GuestRam,
    initrd_addr: usize,
    initrd_size: usize,
    args: &str,
    rest: Seq<char>,
    r: Result<BootParams, BootError>,
    page: Vec<u8>,
    k: int,
)
    requires
        call_ensures(load_parameters, (ram, initrd_addr, initrd_size, args), r),
        r matches Ok(params) ==> call_ensures(BootParams::to_zero_page, (&params,), page),
        crate::cmdline::starts_blank(args@, rest),
        old(ram)@.len() >= 0x10_0000,
        0 <= k < old(ram)@.len(),
    ensures
        ({
            let text = crate::cmdline::text_to_read(rest);
            &&& r is Ok <==> text.len() <= 0xffff && is_printable(rest)
            &&& !is_printable(rest) ==> r == Err::<BootParams, _>(
                BootError::Cmdline(CmdlineError::Insert(InsertError::InvalidAscii)),
            )
            &&& is_printable(rest) && text.len() > 0xffff ==> r == Err::<BootParams, _>(
                BootError::Cmdline(CmdlineError::Insert(InsertError::TooLarge)),
            )
            &&& final(ram)@.len() == old(ram)@.len()
            &&& r is Ok ==> final(ram)@[k] == if 0x7000 <= k < 0x8000 {
                page@[k - 0x7000] as int
            } else if 0x2_0000 <= k < 0x2_0000 + text.len() {
                text[k - 0x2_0000] as int
            } else if k == 0x2_0000 + text.len() {
                0
            } else {
                old(ram)@[k] as int
            }
            &&& r is Err ==> final(ram)@[k] == old(ram)@[k]
        }),
{
    crate::cmdline::kernel_text_is_text_to_read(args@, rest);
    if is_printable(rest) {
        text_has_bytes(kernel_text(args@));
    }
}

/// The parameters that are loaded lead to what they were loaded with: they name the command line at
/// 0x2_0000 with its terminator, and the initramfs, where thirty-two bits can hold its address and
/// size; and they declare all memory usable but for what lies from 0x9_fc00 to 1 MiB.
pub proof fn loaded_parameters_describe_the_guest(
    ram: &mut GuestRam,
    initrd_addr: usize,
    initrd_size: usize,
    args: &str,
    rest: Seq<char>,
    params: BootParams,
    at: int,
)
    requires
        call_ensures(
            load_parameters,
            (ram, initrd_addr, initrd_size, args),
            Ok::<BootParams, BootError>(params),
        ),
        crate::cmdline::starts_blank(args@, rest),
        0x10_0000 <= old(ram)@.len() <= u64::MAX,
        0 <= at,
    ensures
        params.hdr.cmd_line_ptr == 0x2_0000,
        params.hdr.cmdline_size == crate::cmdline::text_to_read(rest).len() + 1,
        (params.hdr.ramdisk_image - initrd_addr) % 0x1_0000_0000 == 0,
        (params.hdr.ramdisk_size - initrd_size) % 0x1_0000_0000 == 0,
        params.hdr.type_of_loader == 0xff && params.hdr.boot_flag == 0xaa55 && params.hdr.header
            == 0x5372_6448,
        crate::bootparams::is_usable(params.memory_map(), at) <==> at < old(ram)@.len() && !(
        0x9_fc00 <= at < 0x10_0000),
{
    crate::cmdline::kernel_text_is_text_to_read(args@, rest);
    crate::bootparams::described_memory_is_all_memory(
        params,
        old(ram)@.len() as int,
        initrd_addr as int,
        initrd_size as int,
        crate::cmdline::text_to_read(rest).len() as int,
        at,
    );
}

/// A guest boots from what was loaded: its command line stands at 0x2_0000, its boot parameters at
/// 0x7000 as the page that they are laid out in, its descriptors at 0x500, and page tables at 0x9000
/// that map the first GiB to itself. It is refused for its arguments alone.
pub proof fn boot_image_is_loaded(
    ram: &mut GuestRam,
    initrd: &[u8],
    args: &str,
    rest: Seq<char>,
    r: Result<BootParams, BootError>,
    page: Vec<u8>,
    vaddr: int,
)
    requires
        call_ensures(load_boot_image, (ram, initrd, args), r),
        r matches Ok(params) ==> call_ensures(BootParams::to_zero_page, (&params,), page),
        crate::cmdline::starts_blank(args@, rest),
        old(ram)@.len() >= 0x10_0000,
        initrd@.len() <= old(ram)@.len(),
        0 <= vaddr < 0x4000_0000,
    ensures
        ({
            let text = crate::cmdline::text_to_read(rest);
            let out = final(ram)@;
            &&& r is Ok <==> text.len() <= 0xffff && is_printable(rest)
            &&& !is_printable(rest) ==> r == Err::<BootParams, _>(
                BootError::Cmdline(CmdlineError::Insert(InsertError::InvalidAscii)),
            )
            &&& is_printable(rest) && text.len() > 0xffff ==> r == Err::<BootParams, _>(
                BootError::Cmdline(CmdlineError::Insert(InsertError::TooLarge)),
            )
            &&& r is Ok ==> {
                &&& out.len() == old(ram)@.len()
                &&& are_bytes_of(out.subrange(0x2_0000, 0x2_0000int + text.len()), text)
                &&& out[0x2_0000int + text.len()] == 0
                &&& out.subrange(0x7000, 0x8000) == page@
                &&& out.subrange(0x500, 0x518) == crate::gdt::boot_table_image()
                &&& crate::paging::translate(out, 0x9000, vaddr) == Some(
                    crate::paging::Translation { address: vaddr, writable: true },
                )
            }
        }),
{
    crate::cmdline::kernel_text_is_text_to_read(args@, rest);
    if r is Ok {
        let bytes = ascii_bytes(kernel_text(args@));
        text_has_bytes(kernel_text(args@));
        boot_image_is_whole(old(ram)@, initrd@, bytes, r->Ok_0);
        crate::gdt::boot_table_bytes();
        crate::paging::first_gib_is_identity_mapped(final(ram)@, vaddr);
    }
}

/// The parameters that are loaded with a boot image lead to its initramfs, which is placed on a page
/// boundary as high as memory allows, and stands there wherever it starts past the command line; and
/// they describe the guest as parameters that are loaded by themselves do.
pub proof fn boot_image_has_its_initramfs(
    ram: &mut GuestRam,
    initrd: &[u8],
    args: &str,
    rest: Seq<char>,
    params: BootParams,
    at: int,
    byte: int,
)
    requires
        call_ensures(
            load_boot_image,
            (ram, initrd, args),
            Ok::<BootParams, BootError>(params),
        ),
        crate::cmdline::starts_blank(args@, rest),
        0x10_0000 <= old(ram)@.len() <= u64::MAX,
        initrd@.len() <= old(ram)@.len(),
        at % 4096 == 0,
        at + initrd@.len() <= old(ram)@.len() < at + initrd@.len() + 4096,
        0 <= byte,
    ensures
        (params.hdr.ramdisk_image - at) % 0x1_0000_0000 == 0,
        (params.hdr.ramdisk_size - initrd@.len()) % 0x1_0000_0000 == 0,
        params.hdr.cmd_line_ptr == 0x2_0000,
        params.hdr.cmdline_size == crate::cmdline::text_to_read(rest).len() + 1,
        params.hdr.type_of_loader == 0xff && params.hdr.boot_flag == 0xaa55 && params.hdr.header
            == 0x5372_6448,
        crate::bootparams::is_usable(params.memory_map(), byte) <==> byte < old(ram)@.len() && !(
        0x9_fc00 <= byte < 0x10_0000),
        at > 0x2_0000 + crate::cmdline::text_to_read(rest).len() ==> final(ram)@.subrange(
            at,
            at + initrd@.len(),
        ) == initrd@,
{
    crate::cmdline::kernel_text_is_text_to_read(args@, rest);
    assert(at == initrd_place(old(ram)@.len() as int, initrd@.len() as int));
    boot_image_is_whole(old(ram)@, initrd@, ascii_bytes(kernel_text(args@)), params);
    crate::bootparams::described_memory_is_all_memory(
        params,
        old(ram)@.len() as int,
        at,
        initrd@.len() as int,
        crate::cmdline::text_to_read(rest).len() as int,
        byte,
    );
}

/// Loading a boot image leaves every byte alone that none of its parts covers, so that a kernel which
/// was loaded past the command line and below the initramfs is still there; and where there is no
/// command line, it leaves every byte alone but those of the initramfs.
pub proof fn boot_image_leaves_the_kernel(
    ram: &mut GuestRam,
    initrd: &[u8],
    args: &str,
    rest: Seq<char>,
    r: Result<BootParams, BootError>,
    at: int,
    k: int,
)
    requires
        call_ensures(load_boot_image, (ram, initrd, args), r),
        crate::cmdline::starts_blank(args@, rest),
        old(ram)@.len() >= 0x10_0000,
        initrd@.len() <= old(ram)@.len(),
        at % 4096 == 0,
        at + initrd@.len() <= old(ram)@.len() < at + initrd@.len() + 4096,
        0 <= k < old(ram)@.len(),
        !(at <= k < at + initrd@.len()),
    ensures
        final(ram)@.len() == old(ram)@.len(),
        r is Err ==> final(ram)@[k] == old(ram)@[k],
        !(0x500 <= k < 0x518) && !(0x7000 <= k < 0x8000) && !(0x9000 <= k < 0x9008) && !(0xa000 <= k
            < 0xa008) && !(0xb000 <= k < 0xc000) && !(0x2_0000 <= k <= 0x2_0000
            + crate::cmdline::text_to_read(rest).len()) ==> final(ram)@[k] == old(ram)@[k],
{
    crate::cmdline::kernel_text_is_text_to_read(args@, rest);
    assert(at == initrd_place(old(ram)@.len() as int, initrd@.len() as int));
    if r is Ok {
        let bytes = ascii_bytes(kernel_text(args@));
        boot_image_is_whole(old(ram)@, initrd@, bytes, r->Ok_0);
        if !is_taken(k, bytes.len() as int) {
            boot_image_keeps_the_rest(old(ram)@, initrd@, bytes, r->Ok_0, k);
        }
    }
}

} // verus!
