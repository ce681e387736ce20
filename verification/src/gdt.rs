//! Segment descriptors, and the descriptor table that the guest boots with.

use crate::bytes::le8;
use crate::bytes::overwrite;
use crate::bytes::u64_at;
use crate::memory::GuestRam;
use crate::memory::MemoryError;
use vstd::prelude::*;

verus! {

/// A segment register with its cached descriptor, field by field.
#[derive(Clone, Copy, Debug, PartialEq, Eq, Structural)]
pub struct Segment {
    pub base: u64,
    pub limit: u32,
    pub selector: u16,
    pub type_: u8,
    pub present: u8,
    pub dpl: u8,
    pub db: u8,
    pub s: u8,
    pub l: u8,
    pub g: u8,
    pub avl: u8,
    pub unusable: u8,
    pub padding: u8,
}

/// Where the boot descriptor table stands in guest memory.
pub const BOOT_GDT_OFFSET: u64 = 0x500;

/// Flags of the code segment: present, executable, 64-bit.
pub const CODE_FLAGS: u16 = 0xa09b;
/// Flags of the data segment: present, writable.
pub const DATA_FLAGS: u16 = 0xc093;
/// The limit of both segments: all of the address space, counted in pages.
pub const FLAT_LIMIT: u32 = 0xf_ffff;

/// The descriptor with the given flags, base and limit. Of the flags the low byte (type, system,
/// privilege, present) and the top four bits (available, long, default size, granularity) count; of
/// the limit the low twenty bits.
pub open spec fn descriptor(flags: u16, base: u32, limit: u32) -> u64 {
    (limit % 0x1_0000 + 0x1_0000 * (base % 0x100_0000) + 0x100_0000_0000 * (flags % 0x100)
        + 0x1_0000_0000_0000 * (limit / 0x1_0000 % 0x10) + 0x10_0000_0000_0000 * (flags / 0x1000)
        + 0x100_0000_0000_0000 * (base / 0x100_0000)) as u64
}

/// The base address in a descriptor.
pub open spec fn descriptor_base(entry: u64) -> u32 {
    (entry / 0x1_0000 % 0x100_0000 + 0x100_0000 * (entry / 0x100_0000_0000_0000)) as u32
}

/// The limit in a descriptor, unscaled.
pub open spec fn descriptor_limit(entry: u64) -> u32 {
    (entry % 0x1_0000 + 0x1_0000 * (entry / 0x1_0000_0000_0000 % 0x10)) as u32
}

/// The flags in a descriptor, in the places that [`descriptor`] takes them from.
pub open spec fn descriptor_flags(entry: u64) -> u16 {
    (entry / 0x100_0000_0000 % 0x100 + 0x1000 * (entry / 0x10_0000_0000_0000 % 0x10)) as u16
}

/// The segment that loading the descriptor `entry`, at `table_index` in its table, gives.
pub open spec fn segment_of(entry: u64, table_index: u8) -> Segment {
    let flags = descriptor_flags(entry);
    Segment {
        base: descriptor_base(entry) as u64,
        limit: descriptor_limit(entry),
        selector: (8 * table_index) as u16,
        type_: (flags % 0x10) as u8,
        s: (flags / 0x10 % 2) as u8,
        dpl: (flags / 0x20 % 4) as u8,
        present: (flags / 0x80 % 2) as u8,
        avl: (flags / 0x1000 % 2) as u8,
        l: (flags / 0x2000 % 2) as u8,
        db: (flags / 0x4000 % 2) as u8,
        g: (flags / 0x8000) as u8,
        unusable: 0,
        padding: 0,
    }
}

/// Builds the descriptor with the given flags, base and limit.
pub fn gdt_entry(flags: u16, base: u32, limit: u32) -> (entry: u64)
    ensures
        entry == descriptor(flags, base, limit),
{
    let b: u64 = base as u64;
    let f: u64 = flags as u64;
    let l: u64 = limit as u64;
    assert((((b & 0xff00_0000) << 32) | ((f & 0x0000_f0ff) << 40) | ((l & 0x000f_0000) << 32) | ((b
        & 0x00ff_ffff) << 16) | (l & 0x0000_ffff)) == l % 0x1_0000 + 0x1_0000 * (b % 0x100_0000)
        + 0x100_0000_0000 * (f % 0x100) + 0x1_0000_0000_0000 * (l / 0x1_0000 % 0x10)
        + 0x10_0000_0000_0000 * (f / 0x1000) + 0x100_0000_0000_0000 * (b / 0x100_0000))
        by (bit_vector)
        requires
            b <= 0xffff_ffff,
            l <= 0xffff_ffff,
            f <= 0xffff,
    ;
    ((b & 0xff00_0000) << 32) | ((f & 0x0000_f0ff) << 40) | ((l & 0x000f_0000) << 32) | ((b
        & 0x00ff_ffff) << 16) | (l & 0x0000_ffff)
}

/// Turns a descriptor into the segment that loading it gives.
pub fn seg_from_gdt(entry: u64, table_index: u8) -> (seg: Segment)
    ensures
        seg == segment_of(entry, table_index),
{
    let base: u64 = ((entry >> 16) & 0xff_ffff) | ((entry >> 32) & 0xff00_0000);
    let limit: u32 = ((entry & 0xffff) | ((entry >> 32) & 0xf_0000)) as u32;
    let flags: u16 = ((entry >> 40) & 0xf0ff) as u16;
    assert((((entry >> 16) & 0xff_ffff) | ((entry >> 32) & 0xff00_0000)) == entry / 0x1_0000
        % 0x100_0000 + 0x100_0000 * (entry / 0x100_0000_0000_0000)) by (bit_vector);
    assert(((entry & 0xffff) | ((entry >> 32) & 0xf_0000)) as u32 == entry % 0x1_0000 + 0x1_0000 * (
    entry / 0x1_0000_0000_0000 % 0x10)) by (bit_vector);
    assert(((entry >> 40) & 0xf0ff) as u16 == entry / 0x100_0000_0000 % 0x100 + 0x1000 * (entry
        / 0x10_0000_0000_0000 % 0x10)) by (bit_vector);
    assert((flags & 0xf) as u8 == flags % 0x10 && ((flags >> 7) & 1) as u8 == flags / 0x80 % 2 && ((
    flags >> 5) & 3) as u8 == flags / 0x20 % 4 && ((flags >> 14) & 1) as u8 == flags / 0x4000 % 2
        && ((flags >> 4) & 1) as u8 == flags / 0x10 % 2 && ((flags >> 13) & 1) as u8 == flags
        / 0x2000 % 2 && ((flags >> 15) & 1) as u8 == flags / 0x8000 && ((flags >> 12) & 1) as u8
        == flags / 0x1000 % 2) by (bit_vector);
    Segment {
        base,
        limit,
        selector: (table_index as u16) * 8,
        type_: (flags & 0xf) as u8,
        present: ((flags >> 7) & 1) as u8,
        dpl: ((flags >> 5) & 3) as u8,
        db: ((flags >> 14) & 1) as u8,
        s: ((flags >> 4) & 1) as u8,
        l: ((flags >> 13) & 1) as u8,
        g: ((flags >> 15) & 1) as u8,
        avl: ((flags >> 12) & 1) as u8,
        unusable: 0,
        padding: 0,
    }
}

/// The descriptors that the guest boots with: none, code, data.
pub open spec fn boot_descriptors() -> Seq<u64> {
    seq![
        descriptor(0, 0, 0),
        descriptor(CODE_FLAGS, 0, FLAT_LIMIT),
        descriptor(DATA_FLAGS, 0, FLAT_LIMIT),
    ]
}

/// Builds the descriptor table that the guest boots with.
pub fn boot_gdt() -> (gdt: [u64; 3])
    ensures
        gdt@ == boot_descriptors(),
{
    [
        gdt_entry(0, 0, 0),
        gdt_entry(CODE_FLAGS, 0, FLAT_LIMIT),
        gdt_entry(DATA_FLAGS, 0, FLAT_LIMIT),
    ]
}

/// The bytes of the boot descriptor table.
pub open spec fn gdt_bytes() -> Seq<u8> {
    Seq::new(24, |k: int| le8(boot_descriptors()[k / 8])[k % 8])
}

/// Guest memory with the boot descriptor table written over it.
pub open spec fn with_gdt(ram: Seq<u8>) -> Seq<u8> {
    overwrite(ram, BOOT_GDT_OFFSET as int, gdt_bytes())
}

/// Writes the boot descriptor table into guest memory.
pub fn write_gdt(ram: &mut GuestRam) -> (r: Result<(), MemoryError>)
    requires
        old(ram).wf(),
    ensures
        final(ram).wf(),
        final(ram)@ == with_gdt(old(ram)@),
        r is Ok <==> old(ram)@.len() >= BOOT_GDT_OFFSET + 24,
        r matches Err(e) ==> e is Access,
{
    let gdt = boot_gdt();
    let ghost ram0 = ram@;
    let mut i: usize = 0;
    assert(overwrite(ram0, BOOT_GDT_OFFSET as int, gdt_bytes().take(0)) =~= ram0);
    while i < 3
        invariant
            i <= 3,
            ram.wf(),
            gdt@ == boot_descriptors(),
            ram0 == old(ram)@,
            ram@ == overwrite(ram0, BOOT_GDT_OFFSET as int, gdt_bytes().take(8 * i as int)),
            i > 0 ==> ram0.len() >= BOOT_GDT_OFFSET + 8 * i,
        decreases 3 - i,
    {
        let res = ram.write_u64(gdt[i], BOOT_GDT_OFFSET + (i as u64) * 8);
        proof {
            let part = gdt_bytes().take(8 * (i + 1) as int);
            let next = overwrite(ram0, BOOT_GDT_OFFSET as int, part);
            assert forall|k: int| 0 <= k < ram0.len() implies ram@[k] == next[k] by {
                let d = k - BOOT_GDT_OFFSET;
                if 8 * i <= d < 8 * i + 8 {
                    assert(d / 8 == i && d % 8 == d - 8 * i);
                }
            }
            assert(ram@ =~= next);
        }
        match res {
            Ok(()) => {},
            Err(e) => {
                assert(with_gdt(ram0) =~= ram@);
                return Err(e);
            },
        }
        i = i + 1;
    }
    assert(gdt_bytes().take(24) =~= gdt_bytes());
    Ok(())
}

/// Where the descriptor table fits, writing it puts each descriptor in its place.
pub proof fn gdt_is_written(ram: Seq<u8>, i: int)
    requires
        ram.len() >= BOOT_GDT_OFFSET + 24,
        0 <= i < 3,
    ensures
        u64_at(with_gdt(ram), BOOT_GDT_OFFSET + 8 * i) == boot_descriptors()[i],
{
    let at = BOOT_GDT_OFFSET + 8 * i;
    let alone = overwrite(ram, at, le8(boot_descriptors()[i]));
    crate::bytes::u64_read_back(ram, at, boot_descriptors()[i]);
    assert forall|k: int| at <= k < at + 8 implies with_gdt(ram)[k] == alone[k] by {
        let d = k - BOOT_GDT_OFFSET;
        assert(d / 8 == i && d % 8 == k - at);
    }
    crate::bytes::u64_at_is_local(with_gdt(ram), alone, at);
}

/// A descriptor holds what it was built from: the base, the low twenty bits of the limit, and the
/// flags but for the four bits that have no place in a descriptor.
pub proof fn descriptor_round_trip(flags: u16, base: u32, limit: u32)
    ensures
        descriptor_base(descriptor(flags, base, limit)) == base,
        descriptor_limit(descriptor(flags, base, limit)) == limit % 0x10_0000,
        descriptor_flags(descriptor(flags, base, limit)) == flags % 0x100 + 0x1000 * (flags
            / 0x1000),
{
    assert(descriptor_base(descriptor(flags, base, limit)) == base) by (bit_vector);
    assert(descriptor_limit(descriptor(flags, base, limit)) == limit % 0x10_0000) by (bit_vector);
    assert(descriptor_flags(descriptor(flags, base, limit)) == flags % 0x100 + 0x1000 * (flags
        / 0x1000)) by (bit_vector);
}

/// Every descriptor is built from its own base, limit and flags: they lose nothing of it.
pub proof fn descriptor_from_parts(entry: u64)
    ensures
        descriptor(descriptor_flags(entry), descriptor_base(entry), descriptor_limit(entry))
            == entry,
{
    assert(descriptor(descriptor_flags(entry), descriptor_base(entry), descriptor_limit(entry))
        == entry) by (bit_vector);
}

/// Every field of a segment that was read from a descriptor fits its place in one, and the
/// selector names the descriptor's entry in the table, with no privilege requested.
pub proof fn segment_fields_fit(entry: u64, table_index: u8)
    ensures
        segment_of(entry, table_index).base < 0x1_0000_0000,
        segment_of(entry, table_index).limit < 0x10_0000,
        segment_of(entry, table_index).type_ < 0x10,
        segment_of(entry, table_index).dpl < 4,
        segment_of(entry, table_index).s < 2,
        segment_of(entry, table_index).present < 2,
        segment_of(entry, table_index).avl < 2,
        segment_of(entry, table_index).l < 2,
        segment_of(entry, table_index).db < 2,
        segment_of(entry, table_index).g < 2,
        segment_of(entry, table_index).selector / 8 == table_index,
        segment_of(entry, table_index).selector % 8 == 0,
{
}

/// The boot code segment is present, executable and 64-bit (and so not 32-bit); the boot data
/// segment is present and writable; both are flat: base zero, and the largest limit, in pages.
pub proof fn boot_segments_are_flat()
    ensures
        ({
            let cs = segment_of(boot_descriptors()[1], 1);
            let ds = segment_of(boot_descriptors()[2], 2);
            &&& cs.present == 1 && cs.s == 1 && cs.type_ / 8 == 1 && cs.l == 1 && cs.db == 0
            &&& ds.present == 1 && ds.s == 1 && ds.type_ / 8 == 0 && ds.type_ / 2 % 2 == 1
            &&& cs.base == 0 && cs.limit == FLAT_LIMIT && cs.g == 1 && cs.dpl == 0
            &&& ds.base == 0 && ds.limit == FLAT_LIMIT && ds.g == 1 && ds.dpl == 0
        }),
        boot_descriptors()[0] == 0,
{
    descriptor_round_trip(CODE_FLAGS, 0, FLAT_LIMIT);
    descriptor_round_trip(DATA_FLAGS, 0, FLAT_LIMIT);
}

/// A descriptor is laid out as the processor has it. Its eight bytes, least significant first,
/// are: two of the limit, three of the base, one of type, system, privilege and present, one with
/// the limit's last four bits below available, long, default size and granularity, and one of the
/// base.
pub proof fn segment_from_descriptor_bytes(
    entry: u64,
    table_index: u8,
    seg: Segment,
    b: [u8; 8],
)
    requires
        call_ensures(seg_from_gdt, (entry, table_index), seg),
        entry == b@[0] + 0x100 * b@[1] + 0x1_0000 * b@[2] + 0x100_0000 * b@[3] + 0x1_0000_0000
            * b@[4] + 0x100_0000_0000 * b@[5] + 0x1_0000_0000_0000 * b@[6] + 0x100_0000_0000_0000
            * b@[7],
    ensures
        seg.limit == b@[0] + 0x100 * b@[1] + 0x1_0000 * (b@[6] % 16),
        seg.base == b@[2] + 0x100 * b@[3] + 0x1_0000 * b@[4] + 0x100_0000 * b@[7],
        b@[5] == seg.type_ + 16 * seg.s + 32 * seg.dpl + 128 * seg.present,
        b@[6] / 16 == seg.avl + 2 * seg.l + 4 * seg.db + 8 * seg.g,
        seg.type_ < 16 && seg.s < 2 && seg.dpl < 4 && seg.present < 2,
        seg.avl < 2 && seg.l < 2 && seg.db < 2 && seg.g < 2,
        seg.selector == 8 * table_index,
        seg.unusable == 0 && seg.padding == 0,
{
    descriptor_from_bytes(entry, b@[0], b@[1], b@[2], b@[3], b@[4], b@[5], b@[6], b@[7]);
    segment_from_parts(entry, table_index);
}

proof fn descriptor_from_bytes(
    entry: u64,
    b0: u8,
    b1: u8,
    b2: u8,
    b3: u8,
    b4: u8,
    b5: u8,
    b6: u8,
    b7: u8,
)
    requires
        entry == b0 + 0x100 * b1 + 0x1_0000 * b2 + 0x100_0000 * b3 + 0x1_0000_0000 * b4
            + 0x100_0000_0000 * b5 + 0x1_0000_0000_0000 * b6 + 0x100_0000_0000_0000 * b7,
    ensures
        descriptor_limit(entry) == b0 + 0x100 * b1 + 0x1_0000 * (b6 % 16),
        descriptor_base(entry) == b2 + 0x100 * b3 + 0x1_0000 * b4 + 0x100_0000 * b7,
        descriptor_flags(entry) % 0x100 == b5,
        descriptor_flags(entry) / 0x1000 == b6 / 16,
{
    descriptor_parts(
        entry,
        b0 as u64,
        b1 as u64,
        b2 as u64,
        b3 as u64,
        b4 as u64,
        b5 as u64,
        b6 as u64,
        b7 as u64,
    );
    let low = b5 as u16;
    let high = (b6 / 16) as u16;
    assert(descriptor_flags(entry) == low + 0x1000 * high);
}

proof fn descriptor_parts(
    entry: u64,
    b0: u64,
    b1: u64,
    b2: u64,
    b3: u64,
    b4: u64,
    b5: u64,
    b6: u64,
    b7: u64,
)
    by (bit_vector)
    requires
        b0 < 0x100 && b1 < 0x100 && b2 < 0x100 && b3 < 0x100,
        b4 < 0x100 && b5 < 0x100 && b6 < 0x100 && b7 < 0x100,
        entry == b0 + 0x100 * b1 + 0x1_0000 * b2 + 0x100_0000 * b3 + 0x1_0000_0000 * b4
            + 0x100_0000_0000 * b5 + 0x1_0000_0000_0000 * b6 + 0x100_0000_0000_0000 * b7,
    ensures
        entry % 0x1_0000 == b0 + 0x100 * b1,
        entry / 0x1_0000 % 0x100_0000 == b2 + 0x100 * b3 + 0x1_0000 * b4,
        entry / 0x100_0000_0000 % 0x100 == b5,
        entry / 0x1_0000_0000_0000 % 0x10 == b6 % 16,
        entry / 0x10_0000_0000_0000 % 0x10 == b6 / 16,
        entry / 0x100_0000_0000_0000 == b7,
{
}

proof fn segment_from_parts(entry: u64, table_index: u8)
    ensures
        ({
            let seg = segment_of(entry, table_index);
            let flags = descriptor_flags(entry);
            &&& seg.base == descriptor_base(entry)
            &&& seg.limit == descriptor_limit(entry)
            &&& flags % 0x100 == seg.type_ + 16 * seg.s + 32 * seg.dpl + 128 * seg.present
            &&& flags / 0x1000 == seg.avl + 2 * seg.l + 4 * seg.db + 8 * seg.g
            &&& seg.type_ < 16 && seg.s < 2 && seg.dpl < 4 && seg.present < 2
            &&& seg.avl < 2 && seg.l < 2 && seg.db < 2 && seg.g < 2
            &&& seg.selector == 8 * table_index
            &&& seg.unusable == 0 && seg.padding == 0
        }),
{
    flags_from_fields(descriptor_flags(entry));
}

proof fn flags_from_fields(f: u16)
    by (bit_vector)
    ensures
        f % 0x100 == f % 0x10 + 16 * (f / 0x10 % 2) + 32 * (f / 0x20 % 4) + 128 * (f / 0x80 % 2),
        f / 0x1000 == f / 0x1000 % 2 + 2 * (f / 0x2000 % 2) + 4 * (f / 0x4000 % 2) + 8 * (f
            / 0x8000),
{
}

/// A segment that is loaded from a descriptor has the base that the descriptor was built with, the
/// low twenty bits of its limit, and its flags, each where the flags have it.
pub proof fn segment_has_what_descriptor_was_built_from(
    flags: u16,
    base: u32,
    limit: u32,
    entry: u64,
    table_index: u8,
    seg: Segment,
)
    requires
        call_ensures(gdt_entry, (flags, base, limit), entry),
        call_ensures(seg_from_gdt, (entry, table_index), seg),
    ensures
        seg.base == base,
        seg.limit == limit % 0x10_0000,
        flags % 0x100 == seg.type_ + 16 * seg.s + 32 * seg.dpl + 128 * seg.present,
        flags / 0x1000 == seg.avl + 2 * seg.l + 4 * seg.db + 8 * seg.g,
        seg.selector == 8 * table_index,
        seg.unusable == 0 && seg.padding == 0,
{
    descriptor_keeps_parts(flags, base, limit);
    segment_from_parts(entry, table_index);
}

proof fn descriptor_keeps_parts(flags: u16, base: u32, limit: u32)
    ensures
        descriptor_base(descriptor(flags, base, limit)) == base,
        descriptor_limit(descriptor(flags, base, limit)) == limit % 0x10_0000,
        descriptor_flags(descriptor(flags, base, limit)) % 0x100 == flags % 0x100,
        descriptor_flags(descriptor(flags, base, limit)) / 0x1000 == flags / 0x1000,
{
    descriptor_round_trip(flags, base, limit);
    let kept = descriptor_flags(descriptor(flags, base, limit));
    assert(kept % 0x100 == flags % 0x100 && kept / 0x1000 == flags / 0x1000) by (bit_vector)
        requires
            kept == flags % 0x100 + 0x1000 * (flags / 0x1000),
    ;
}

/// The boot descriptor table has a null descriptor, then code, then data.
pub proof fn boot_table_words(gdt: [u64; 3])
    requires
        call_ensures(boot_gdt, (), gdt),
    ensures
        gdt@ == seq![0u64, 0x00af_9b00_0000_ffffu64, 0x00cf_9300_0000_ffffu64],
{
    boot_descriptor_values();
}

/// The values of the descriptors that the guest boots with.
pub proof fn boot_descriptor_values()
    ensures
        boot_descriptors() == seq![0u64, 0x00af_9b00_0000_ffffu64, 0x00cf_9300_0000_ffffu64],
{
    assert(descriptor(0xa09b, 0, 0xf_ffff) == 0x00af_9b00_0000_ffff) by (bit_vector);
    assert(descriptor(0xc093, 0, 0xf_ffff) == 0x00cf_9300_0000_ffff) by (bit_vector);
    assert(descriptor(0, 0, 0) == 0) by (bit_vector);
}

/// The bytes of the boot descriptor table as they stand in guest memory, from address 0x500 on.
pub open spec fn boot_table_image() -> Seq<u8> {
    seq![
        0u8, 0, 0, 0, 0, 0, 0, 0,
        0xff, 0xff, 0, 0, 0, 0x9b, 0xaf, 0,
        0xff, 0xff, 0, 0, 0, 0x93, 0xcf, 0,
    ]
}

/// Writing the descriptor table puts these bytes at address 0x500, as far as the memory goes, and
/// changes nothing else. It succeeds exactly where all of them have room.
pub proof fn table_in_memory(ram: &mut GuestRam, r: Result<(), MemoryError>, k: int)
    requires
        call_ensures(write_gdt, (ram,), r),
        0 <= k < old(ram)@.len(),
    ensures
        r is Ok <==> old(ram)@.len() >= 0x518,
        r matches Err(e) ==> e is Access,
        final(ram)@.len() == old(ram)@.len(),
        final(ram)@[k] == if 0x500 <= k < 0x518 {
            boot_table_image()[k - 0x500]
        } else {
            old(ram)@[k]
        },
{
    boot_table_bytes();
}

/// The boot descriptor table has these bytes.
pub proof fn boot_table_bytes()
    ensures
        gdt_bytes() == boot_table_image(),
{
    boot_descriptor_values();
    assert(le8(0) =~= seq![0u8, 0, 0, 0, 0, 0, 0, 0]);
    assert(le8(0x00af_9b00_0000_ffff) =~= seq![0xffu8, 0xff, 0, 0, 0, 0x9b, 0xaf, 0]);
    assert(le8(0x00cf_9300_0000_ffff) =~= seq![0xffu8, 0xff, 0, 0, 0, 0x93, 0xcf, 0]);
    assert forall|k: int| 0 <= k < 24 implies gdt_bytes()[k] == boot_table_image()[k] by {
        if k < 8 {
            assert(k / 8 == 0 && k % 8 == k);
        } else if k < 16 {
            assert(k / 8 == 1 && k % 8 == k - 8);
        } else {
            assert(k / 8 == 2 && k % 8 == k - 16);
        }
    }
    assert(gdt_bytes() =~= boot_table_image());
}

} // verus!
