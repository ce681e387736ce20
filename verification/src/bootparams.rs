//! The parameters that the kernel is booted with (the "zero page"), and the memory map in them.

use crate::bytes::le2;
use crate::bytes::le4;
use crate::bytes::le8;
use crate::bytes::low_bits;
use crate::bytes::low_u32;
use crate::bytes::overwrite;
use crate::bytes::u16_at;
use crate::bytes::u16_bytes;
use crate::bytes::u32_at;
use crate::bytes::u32_bytes;
use crate::bytes::u64_at;
use crate::bytes::u64_bytes;
use vstd::prelude::*;

verus! {

broadcast use vstd::slice::group_slice_axioms;

/// Where the boot parameters stand in guest memory.
pub const ZERO_PAGE_START: u64 = 0x7000;
/// Where the kernel command line stands in guest memory.
pub const CMDLINE_START: u64 = 0x2_0000;
/// Top of usable low memory; the BIOS area follows.
pub const EBDA_START: u64 = 0x9_fc00;
/// Where memory goes on after the BIOS area.
pub const HIMEM_START: u64 = 0x10_0000;

/// The magic number at the end of a boot sector.
pub const KERNEL_BOOT_FLAG_MAGIC: u16 = 0xaa55;
/// "HdrS".
pub const KERNEL_HDR_MAGIC: u32 = 0x5372_6448;
/// A boot loader without a number of its own.
pub const KERNEL_LOADER_OTHER: u8 = 0xff;
/// The memory type of usable memory.
pub const E820_RAM: u32 = 1;

/// Entries in the memory map of the zero page.
pub const E820_MAX_ENTRIES: usize = 128;
/// Bytes in the zero page.
pub const ZERO_PAGE_SIZE: usize = 4096;

/// One range of the memory map.
#[derive(Clone, Copy, Debug, PartialEq, Eq, Structural)]
pub struct E820Entry {
    pub addr: u64,
    pub size: u64,
    pub mem_type: u32,
}

/// The fields of the kernel's setup header that a boot loader fills in.
#[derive(Clone, Copy, Debug, PartialEq, Eq, Structural)]
pub struct SetupHeader {
    pub type_of_loader: u8,
    pub boot_flag: u16,
    pub header: u32,
    pub cmd_line_ptr: u32,
    pub cmdline_size: u32,
    pub ramdisk_image: u32,
    pub ramdisk_size: u32,
}

/// The boot parameters; every field that is not here is zero.
#[derive(Clone, Copy, Debug, PartialEq, Eq)]
pub struct BootParams {
    pub hdr: SetupHeader,
    pub e820_entries: u8,
    pub e820_table: [E820Entry; 128],
}

impl BootParams {
    /// No more entries of the memory map are in use than there are.
    pub open spec fn wf(&self) -> bool {
        self.e820_entries <= E820_MAX_ENTRIES
    }

    /// The entries of the memory map that are in use.
    pub open spec fn memory_map(&self) -> Seq<E820Entry> {
        self.e820_table@.take(self.e820_entries as int)
    }

    /// Boot parameters with nothing filled in.
    pub fn zeroed() -> (params: BootParams)
        ensures
            params.wf(),
            params.hdr == (SetupHeader {
                type_of_loader: 0,
                boot_flag: 0,
                header: 0,
                cmd_line_ptr: 0,
                cmdline_size: 0,
                ramdisk_image: 0,
                ramdisk_size: 0,
            }),
            params.e820_entries == 0,
            forall|i: int|
                0 <= i < E820_MAX_ENTRIES ==> params.e820_table@[i] == (E820Entry {
                    addr: 0,
                    size: 0,
                    mem_type: 0,
                }),
            params.memory_map() == Seq::<E820Entry>::empty(),
    {
        BootParams {
            hdr: SetupHeader {
                type_of_loader: 0,
                boot_flag: 0,
                header: 0,
                cmd_line_ptr: 0,
                cmdline_size: 0,
                ramdisk_image: 0,
                ramdisk_size: 0,
            },
            e820_entries: 0,
            e820_table: [E820Entry { addr: 0, size: 0, mem_type: 0 };128],
        }
    }
}

/// Adds a range to the memory map.
pub fn add_e820_entry(params: &mut BootParams, addr: u64, size: u64, mem_type: u32)
    requires
        old(params).e820_entries < E820_MAX_ENTRIES,
    ensures
        final(params).wf(),
        final(params).hdr == old(params).hdr,
        final(params).e820_entries == old(params).e820_entries + 1,
        final(params).e820_table@ == old(params).e820_table@.update(
            old(params).e820_entries as int,
            E820Entry { addr, size, mem_type },
        ),
        final(params).memory_map() == old(params).memory_map().push(
            E820Entry { addr, size, mem_type },
        ),
{
    let idx: usize = params.e820_entries as usize;
    params.e820_table[idx] = E820Entry { addr, size, mem_type };
    params.e820_entries = params.e820_entries + 1;
}

/// The memory map of a guest with `mem_size` bytes of memory: all of it but the BIOS area.
pub open spec fn guest_memory_map(mem_size: int) -> Seq<E820Entry> {
    seq![
        E820Entry { addr: 0, size: EBDA_START, mem_type: E820_RAM },
        E820Entry {
            addr: HIMEM_START,
            size: (mem_size - HIMEM_START) as u64,
            mem_type: E820_RAM,
        },
    ]
}

impl BootParams {
    /// These are the boot parameters of a guest with `mem_size` bytes of memory, an initramfs of
    /// `initrd_size` bytes at `initrd_addr`, and a command line of `cmdline_len` bytes (its
    /// terminator not counted). The header has thirty-two bits for each of the last three.
    pub open spec fn describe(
        &self,
        mem_size: int,
        initrd_addr: int,
        initrd_size: int,
        cmdline_len: int,
    ) -> bool {
        &&& self.wf()
        &&& self.hdr == (SetupHeader {
            type_of_loader: KERNEL_LOADER_OTHER,
            boot_flag: KERNEL_BOOT_FLAG_MAGIC,
            header: KERNEL_HDR_MAGIC,
            cmd_line_ptr: CMDLINE_START as u32,
            cmdline_size: (low_bits(cmdline_len) + 1) as u32,
            ramdisk_image: low_bits(initrd_addr),
            ramdisk_size: low_bits(initrd_size),
        })
        &&& self.memory_map() == guest_memory_map(mem_size)
        &&& forall|i: int|
            2 <= i < E820_MAX_ENTRIES ==> self.e820_table@[i] == (E820Entry {
                addr: 0,
                size: 0,
                mem_type: 0,
            })
    }
}

/// The boot parameters of a guest with `mem_size` bytes of memory, an initramfs of `initrd_size`
/// bytes at `initrd_addr`, and a command line of `cmdline_len` bytes (its terminator not counted).
/// Of the last three numbers, bits that the header has no place for are lost.
pub fn boot_params(
    mem_size: usize,
    initrd_addr: usize,
    initrd_size: usize,
    cmdline_len: usize,
) -> (params: BootParams)
    requires
        mem_size >= HIMEM_START,
        low_bits(cmdline_len as int) < u32::MAX,
    ensures
        params.describe(
            mem_size as int,
            initrd_addr as int,
            initrd_size as int,
            cmdline_len as int,
        ),
{
    let mut params = BootParams::zeroed();
    params.hdr.type_of_loader = KERNEL_LOADER_OTHER;
    params.hdr.boot_flag = KERNEL_BOOT_FLAG_MAGIC;
    params.hdr.header = KERNEL_HDR_MAGIC;
    params.hdr.cmd_line_ptr = CMDLINE_START as u32;
    params.hdr.cmdline_size = low_u32(cmdline_len) + 1;
    params.hdr.ramdisk_image = low_u32(initrd_addr);
    params.hdr.ramdisk_size = low_u32(initrd_size);
    add_e820_entry(&mut params, 0, EBDA_START, E820_RAM);
    add_e820_entry(&mut params, HIMEM_START, (mem_size as u64) - HIMEM_START, E820_RAM);
    assert(params.memory_map() =~= guest_memory_map(mem_size as int));
    params
}

/// The twenty bytes of a memory map entry.
pub open spec fn entry_bytes(e: E820Entry) -> Seq<u8> {
    le8(e.addr) + le8(e.size) + le4(e.mem_type)
}

/// The bytes of a memory map.
pub open spec fn table_bytes(table: Seq<E820Entry>) -> Seq<u8> {
    Seq::new(20 * table.len(), |k: int| entry_bytes(table[k / 20])[k % 20])
}

/// Places of the fields in the zero page.
pub const E820_ENTRIES_OFFSET: usize = 0x1e8;
pub const BOOT_FLAG_OFFSET: usize = 0x1fe;
pub const HEADER_OFFSET: usize = 0x202;
pub const TYPE_OF_LOADER_OFFSET: usize = 0x210;
pub const RAMDISK_IMAGE_OFFSET: usize = 0x218;
pub const RAMDISK_SIZE_OFFSET: usize = 0x21c;
pub const CMD_LINE_PTR_OFFSET: usize = 0x228;
pub const CMDLINE_SIZE_OFFSET: usize = 0x238;
pub const E820_TABLE_OFFSET: usize = 0x2d0;

/// The zero page before the memory map is written into it.
pub open spec fn header_page(params: BootParams) -> Seq<u8> {
    let page = Seq::new(ZERO_PAGE_SIZE as nat, |i: int| 0u8);
    let page = overwrite(page, E820_ENTRIES_OFFSET as int, seq![params.e820_entries]);
    let page = overwrite(page, BOOT_FLAG_OFFSET as int, le2(params.hdr.boot_flag));
    let page = overwrite(page, HEADER_OFFSET as int, le4(params.hdr.header));
    let page = overwrite(page, TYPE_OF_LOADER_OFFSET as int, seq![params.hdr.type_of_loader]);
    let page = overwrite(page, RAMDISK_IMAGE_OFFSET as int, le4(params.hdr.ramdisk_image));
    let page = overwrite(page, RAMDISK_SIZE_OFFSET as int, le4(params.hdr.ramdisk_size));
    let page = overwrite(page, CMD_LINE_PTR_OFFSET as int, le4(params.hdr.cmd_line_ptr));
    overwrite(page, CMDLINE_SIZE_OFFSET as int, le4(params.hdr.cmdline_size))
}

/// The zero page: each field in its place, and zeros elsewhere.
pub open spec fn zero_page(params: BootParams) -> Seq<u8> {
    overwrite(header_page(params), E820_TABLE_OFFSET as int, table_bytes(params.e820_table@))
}

fn put(page: &mut Vec<u8>, at: usize, part: &[u8])
    requires
        at + part@.len() <= old(page)@.len(),
    ensures
        final(page)@ == overwrite(old(page)@, at as int, part@),
{
    let len: usize = part.len();
    let total: usize = page.len();
    let mut i: usize = 0;
    while i < len
        invariant
            i <= len,
            len == part@.len(),
            total == old(page)@.len(),
            at + len <= total,
            page@ == overwrite(old(page)@, at as int, part@.take(i as int)),
        decreases len - i,
    {
        page.set(at + i, part[i]);
        i = i + 1;
        assert(page@ =~= overwrite(old(page)@, at as int, part@.take(i as int)));
    }
    assert(part@.take(len as int) =~= part@);
}

fn entry_to_bytes(e: E820Entry) -> (b: Vec<u8>)
    ensures
        b@ == entry_bytes(e),
{
    let mut b: Vec<u8> = Vec::new();
    let addr = u64_bytes(e.addr);
    let size = u64_bytes(e.size);
    let mem_type = u32_bytes(e.mem_type);
    b.extend_from_slice(addr.as_slice());
    b.extend_from_slice(size.as_slice());
    b.extend_from_slice(mem_type.as_slice());
    assert(b@ =~= entry_bytes(e));
    b
}

fn table_to_bytes(table: &[E820Entry; 128]) -> (b: Vec<u8>)
    ensures
        b@ == table_bytes(table@),
{
    let mut b: Vec<u8> = Vec::new();
    let mut i: usize = 0;
    while i < E820_MAX_ENTRIES
        invariant
            i <= E820_MAX_ENTRIES,
            b@ == table_bytes(table@.take(i as int)),
        decreases E820_MAX_ENTRIES - i,
    {
        let ghost before = table@.take(i as int);
        let entry = entry_to_bytes(table[i]);
        b.extend_from_slice(entry.as_slice());
        proof {
            let after = table@.take(i + 1);
            assert(entry@.len() == 20);
            assert forall|k: int| 0 <= k < 20 * (i + 1) implies b@[k] == table_bytes(after)[k] by {
                if k < 20 * i {
                    assert(k / 20 < i);
                    assert(before[k / 20] == after[k / 20]);
                } else {
                    assert(k / 20 == i && k % 20 == k - 20 * i);
                }
            }
            assert(b@ =~= table_bytes(after));
        }
        i = i + 1;
    }
    assert(table@.take(128) =~= table@);
    b
}

impl BootParams {
    /// Lays the parameters out as the kernel reads them.
    pub fn to_zero_page(&self) -> (page: Vec<u8>)
        ensures
            page@ == zero_page(*self),
            page@.len() == ZERO_PAGE_SIZE,
    {
        let mut page: Vec<u8> = vec![0u8; ZERO_PAGE_SIZE];
        assert(page@ =~= Seq::new(ZERO_PAGE_SIZE as nat, |i: int| 0u8));
        put(&mut page, E820_ENTRIES_OFFSET, [self.e820_entries].as_slice());
        put(&mut page, BOOT_FLAG_OFFSET, u16_bytes(self.hdr.boot_flag).as_slice());
        put(&mut page, HEADER_OFFSET, u32_bytes(self.hdr.header).as_slice());
        put(&mut page, TYPE_OF_LOADER_OFFSET, [self.hdr.type_of_loader].as_slice());
        put(&mut page, RAMDISK_IMAGE_OFFSET, u32_bytes(self.hdr.ramdisk_image).as_slice());
        put(&mut page, RAMDISK_SIZE_OFFSET, u32_bytes(self.hdr.ramdisk_size).as_slice());
        put(&mut page, CMD_LINE_PTR_OFFSET, u32_bytes(self.hdr.cmd_line_ptr).as_slice());
        put(&mut page, CMDLINE_SIZE_OFFSET, u32_bytes(self.hdr.cmdline_size).as_slice());
        assert(page@ == header_page(*self));
        let table = table_to_bytes(&self.e820_table);
        put(&mut page, E820_TABLE_OFFSET, table.as_slice());
        page
    }
}

/// Where the kernel looks for a field of the header, it finds the field.
pub proof fn zero_page_header_reads_back(params: BootParams)
    ensures
        ({
            let page = zero_page(params);
            &&& page.len() == ZERO_PAGE_SIZE
            &&& page[E820_ENTRIES_OFFSET as int] == params.e820_entries
            &&& page[TYPE_OF_LOADER_OFFSET as int] == params.hdr.type_of_loader
            &&& u16_at(page, BOOT_FLAG_OFFSET as int) == params.hdr.boot_flag
            &&& u32_at(page, HEADER_OFFSET as int) == params.hdr.header
            &&& u32_at(page, RAMDISK_IMAGE_OFFSET as int) == params.hdr.ramdisk_image
            &&& u32_at(page, RAMDISK_SIZE_OFFSET as int) == params.hdr.ramdisk_size
            &&& u32_at(page, CMD_LINE_PTR_OFFSET as int) == params.hdr.cmd_line_ptr
            &&& u32_at(page, CMDLINE_SIZE_OFFSET as int) == params.hdr.cmdline_size
        }),
{
    let page = zero_page(params);
    field_reads_back_16(page, BOOT_FLAG_OFFSET as int, params.hdr.boot_flag);
    field_reads_back_32(page, HEADER_OFFSET as int, params.hdr.header);
    field_reads_back_32(page, RAMDISK_IMAGE_OFFSET as int, params.hdr.ramdisk_image);
    field_reads_back_32(page, RAMDISK_SIZE_OFFSET as int, params.hdr.ramdisk_size);
    field_reads_back_32(page, CMD_LINE_PTR_OFFSET as int, params.hdr.cmd_line_ptr);
    field_reads_back_32(page, CMDLINE_SIZE_OFFSET as int, params.hdr.cmdline_size);
}

proof fn field_reads_back_16(page: Seq<u8>, at: int, v: u16)
    requires
        0 <= at,
        at + 2 <= page.len(),
        forall|k: int| 0 <= k < 2 ==> #[trigger] page[at + k] == le2(v)[k],
    ensures
        u16_at(page, at) == v,
{
    assert(page[at + 0] == le2(v)[0]);
    assert(page[at + 1] == le2(v)[1]);
}

proof fn field_reads_back_32(page: Seq<u8>, at: int, v: u32)
    requires
        0 <= at,
        at + 4 <= page.len(),
        forall|k: int| 0 <= k < 4 ==> #[trigger] page[at + k] == le4(v)[k],
    ensures
        u32_at(page, at) == v,
{
    assert(page[at + 0] == le4(v)[0]);
    assert(page[at + 1] == le4(v)[1]);
    assert(page[at + 2] == le4(v)[2]);
    assert(page[at + 3] == le4(v)[3]);
}

/// Where the kernel looks for an entry of the memory map, it finds the entry.
pub proof fn zero_page_table_reads_back(params: BootParams, i: int)
    requires
        0 <= i < E820_MAX_ENTRIES,
    ensures
        ({
            let page = zero_page(params);
            let at = E820_TABLE_OFFSET + 20 * i;
            &&& u64_at(page, at) == params.e820_table@[i].addr
            &&& u64_at(page, at + 8) == params.e820_table@[i].size
            &&& u32_at(page, at + 16) == params.e820_table@[i].mem_type
        }),
{
    let page = zero_page(params);
    let at = E820_TABLE_OFFSET + 20 * i;
    let e = params.e820_table@[i];
    assert forall|k: int| 0 <= k < 20 implies #[trigger] page[at + k] == entry_bytes(e)[k] by {
        let d = at + k - E820_TABLE_OFFSET;
        assert(d / 20 == i && d % 20 == k);
    }
    let base = Seq::new(ZERO_PAGE_SIZE as nat, |j: int| 0u8);
    let addr_alone = overwrite(base, at, le8(e.addr));
    crate::bytes::u64_read_back(base, at, e.addr);
    assert forall|k: int| at <= k < at + 8 implies page[k] == addr_alone[k] by {
        assert(page[at + (k - at)] == entry_bytes(e)[k - at]);
    }
    crate::bytes::u64_at_is_local(page, addr_alone, at);
    let size_alone = overwrite(base, at + 8, le8(e.size));
    crate::bytes::u64_read_back(base, at + 8, e.size);
    assert forall|k: int| at + 8 <= k < at + 16 implies page[k] == size_alone[k] by {
        assert(page[at + (k - at)] == entry_bytes(e)[k - at]);
    }
    crate::bytes::u64_at_is_local(page, size_alone, at + 8);
    assert forall|k: int| 0 <= k < 4 implies #[trigger] page[at + 16 + k] == le4(e.mem_type)[k] by {
        assert(page[at + (16 + k)] == entry_bytes(e)[16 + k]);
    }
    field_reads_back_32(page, at + 16, e.mem_type);
}

/// A byte of the zero page that belongs to no field is zero.
pub proof fn zero_page_is_zero_elsewhere(params: BootParams, at: int)
    requires
        0 <= at < ZERO_PAGE_SIZE,
        at != E820_ENTRIES_OFFSET,
        !(BOOT_FLAG_OFFSET <= at < BOOT_FLAG_OFFSET + 2),
        !(HEADER_OFFSET <= at < HEADER_OFFSET + 4),
        at != TYPE_OF_LOADER_OFFSET,
        !(RAMDISK_IMAGE_OFFSET <= at < RAMDISK_SIZE_OFFSET + 4),
        !(CMD_LINE_PTR_OFFSET <= at < CMD_LINE_PTR_OFFSET + 4),
        !(CMDLINE_SIZE_OFFSET <= at < CMDLINE_SIZE_OFFSET + 4),
        !(E820_TABLE_OFFSET <= at < E820_TABLE_OFFSET + 20 * E820_MAX_ENTRIES),
    ensures
        zero_page(params)[at] == 0,
{
}

/// Whether a memory map has the byte at `at` in a range of usable memory.
pub open spec fn is_usable(map: Seq<E820Entry>, at: int) -> bool {
    exists|i: int|
        0 <= i < map.len() && (#[trigger] map[i]).mem_type == E820_RAM && map[i].addr <= at
            < map[i].addr + map[i].size
}

/// The memory map of a guest declares every byte of its memory usable, but for those of the BIOS
/// area, and no byte besides.
pub proof fn memory_map_is_memory_without_bios_area(mem_size: int, at: int)
    requires
        HIMEM_START <= mem_size <= u64::MAX,
        0 <= at,
    ensures
        is_usable(guest_memory_map(mem_size), at) <==> at < mem_size && !(EBDA_START <= at
            < HIMEM_START),
{
    let map = guest_memory_map(mem_size);
    if at < EBDA_START {
        assert(map[0].addr <= at < map[0].addr + map[0].size);
    } else if HIMEM_START <= at < mem_size {
        assert(map[1].addr <= at < map[1].addr + map[1].size);
    }
}

/// The ranges of the memory map of a guest are in ascending order and apart.
pub proof fn memory_map_is_sorted(mem_size: int, i: int, j: int)
    requires
        HIMEM_START <= mem_size <= u64::MAX,
        0 <= i < j < guest_memory_map(mem_size).len(),
    ensures
        guest_memory_map(mem_size)[i].addr + guest_memory_map(mem_size)[i].size
            <= guest_memory_map(mem_size)[j].addr,
{
}

/// The boot parameters of a guest declare every byte of its memory usable, but for those from
/// 0x9_fc00 to 1 MiB, and no byte besides: the kernel is told of all the memory that there is.
pub proof fn kernel_is_told_of_all_memory(
    mem_size: usize,
    initrd_addr: usize,
    initrd_size: usize,
    cmdline_len: usize,
    params: BootParams,
    at: int,
)
    requires
        call_ensures(boot_params, (mem_size, initrd_addr, initrd_size, cmdline_len), params),
        mem_size >= 0x10_0000,
        0 <= at,
    ensures
        is_usable(params.memory_map(), at) <==> at < mem_size && !(0x9_fc00 <= at < 0x10_0000),
        params.memory_map().len() == 2,
        forall|i: int| 0 <= i < 2 ==> (#[trigger] params.memory_map()[i]).mem_type == 1,
{
    memory_map_is_memory_without_bios_area(mem_size as int, at);
}

/// The same of whatever parameters describe a guest.
pub proof fn described_memory_is_all_memory(
    params: BootParams,
    mem_size: int,
    initrd_addr: int,
    initrd_size: int,
    cmdline_len: int,
    at: int,
)
    requires
        params.describe(mem_size, initrd_addr, initrd_size, cmdline_len),
        0x10_0000 <= mem_size <= u64::MAX,
        0 <= at,
    ensures
        is_usable(params.memory_map(), at) <==> at < mem_size && !(0x9_fc00 <= at < 0x10_0000),
{
    memory_map_is_memory_without_bios_area(mem_size, at);
}

/// No range of the memory map overlaps another, and what is not in use of the table is zero.
pub proof fn memory_map_of_parameters(
    mem_size: usize,
    initrd_addr: usize,
    initrd_size: usize,
    cmdline_len: usize,
    params: BootParams,
)
    requires
        call_ensures(boot_params, (mem_size, initrd_addr, initrd_size, cmdline_len), params),
        mem_size >= 0x10_0000,
    ensures
        params.e820_entries == 2,
        params.e820_table@[0].addr == 0,
        params.e820_table@[0].size == 0x9_fc00,
        params.e820_table@[1].addr == 0x10_0000,
        params.e820_table@[1].addr + params.e820_table@[1].size == mem_size,
        params.e820_table@[0].mem_type == 1 && params.e820_table@[1].mem_type == 1,
        forall|i: int|
            2 <= i < 128 ==> (#[trigger] params.e820_table@[i]).addr == 0
                && params.e820_table@[i].size == 0 && params.e820_table@[i].mem_type == 0,
{
    assert(params.e820_table@.len() == 128);
    assert(params.memory_map().len() == 2);
    assert(params.memory_map()[0] == params.e820_table@[0]);
    assert(params.memory_map()[1] == params.e820_table@[1]);
}

/// The boot parameters of a guest name its command line, terminator included, and its initramfs, as
/// they are, where thirty-two bits can hold that; and they carry the marks by which the kernel
/// knows them.
pub proof fn header_of_parameters(
    mem_size: usize,
    initrd_addr: usize,
    initrd_size: usize,
    cmdline_len: usize,
    params: BootParams,
)
    requires
        call_ensures(boot_params, (mem_size, initrd_addr, initrd_size, cmdline_len), params),
        cmdline_len as int % 0x1_0000_0000 != 0xffff_ffff,
    ensures
        params.hdr.type_of_loader == 0xff,
        params.hdr.boot_flag == 0xaa55,
        params.hdr.header == 0x5372_6448,
        params.hdr.cmd_line_ptr == 0x2_0000,
        (params.hdr.cmdline_size - 1 - cmdline_len) % 0x1_0000_0000 == 0,
        (params.hdr.ramdisk_image - initrd_addr) % 0x1_0000_0000 == 0,
        (params.hdr.ramdisk_size - initrd_size) % 0x1_0000_0000 == 0,
        cmdline_len < 0x1_0000_0000 ==> params.hdr.cmdline_size == cmdline_len + 1,
        initrd_addr < 0x1_0000_0000 ==> params.hdr.ramdisk_image == initrd_addr,
        initrd_size < 0x1_0000_0000 ==> params.hdr.ramdisk_size == initrd_size,
{
}

/// Adding a range to the memory map appends it as it is, whatever it is, and changes nothing else.
pub proof fn added_range_comes_last(
    params: &mut BootParams,
    addr: u64,
    size: u64,
    mem_type: u32,
    i: int,
)
    requires
        call_ensures(add_e820_entry, (params, addr, size, mem_type), ()),
        old(params).e820_entries < 128,
        0 <= i < 128,
    ensures
        final(params).e820_entries == old(params).e820_entries + 1,
        i == old(params).e820_entries ==> final(params).e820_table@[i].addr == addr
            && final(params).e820_table@[i].size == size && final(params).e820_table@[i].mem_type
            == mem_type,
        i != old(params).e820_entries ==> final(params).e820_table@[i] == old(params).e820_table@[i],
        final(params).hdr == old(params).hdr,
{
}

/// Boot parameters with nothing filled in are zero throughout.
pub proof fn nothing_is_filled_in(params: BootParams, i: int)
    requires
        call_ensures(BootParams::zeroed, (), params),
        0 <= i < 128,
    ensures
        params.e820_entries == 0,
        params.e820_table@[i].addr == 0 && params.e820_table@[i].size == 0
            && params.e820_table@[i].mem_type == 0,
        params.hdr.type_of_loader == 0 && params.hdr.boot_flag == 0 && params.hdr.header == 0,
        params.hdr.cmd_line_ptr == 0 && params.hdr.cmdline_size == 0,
        params.hdr.ramdisk_image == 0 && params.hdr.ramdisk_size == 0,
{
}

/// The zero page has every field of the header where the kernel reads it.
pub proof fn page_has_the_header(params: &BootParams, page: Vec<u8>)
    requires
        call_ensures(BootParams::to_zero_page, (params,), page),
    ensures
        page@.len() == 4096,
        page@[0x1e8] == params.e820_entries,
        u16_at(page@, 0x1fe) == params.hdr.boot_flag,
        u32_at(page@, 0x202) == params.hdr.header,
        page@[0x210] == params.hdr.type_of_loader,
        u32_at(page@, 0x218) == params.hdr.ramdisk_image,
        u32_at(page@, 0x21c) == params.hdr.ramdisk_size,
        u32_at(page@, 0x228) == params.hdr.cmd_line_ptr,
        u32_at(page@, 0x238) == params.hdr.cmdline_size,
{
    zero_page_header_reads_back(*params);
}

/// The zero page has every entry of the memory map where the kernel reads it: twenty bytes each, from
/// 0x2d0 on, with the address, the size and the type.
pub proof fn page_has_the_memory_map(params: &BootParams, page: Vec<u8>, i: int)
    requires
        call_ensures(BootParams::to_zero_page, (params,), page),
        0 <= i < 128,
    ensures
        u64_at(page@, 0x2d0 + 20 * i) == params.e820_table@[i].addr,
        u64_at(page@, 0x2d8 + 20 * i) == params.e820_table@[i].size,
        u32_at(page@, 0x2e0 + 20 * i) == params.e820_table@[i].mem_type,
{
    zero_page_table_reads_back(*params, i);
}

/// The zero page is zero where it has no field.
pub proof fn page_has_nothing_else(params: &BootParams, page: Vec<u8>, at: int)
    requires
        call_ensures(BootParams::to_zero_page, (params,), page),
        0 <= at < 4096,
        at != 0x1e8,
        !(0x1fe <= at < 0x200),
        !(0x202 <= at < 0x206),
        at != 0x210,
        !(0x218 <= at < 0x220),
        !(0x228 <= at < 0x22c),
        !(0x238 <= at < 0x23c),
        !(0x2d0 <= at < 0xcd0),
    ensures
        page@[at] == 0,
{
    zero_page_is_zero_elsewhere(*params, at);
}

} // verus!
