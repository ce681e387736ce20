//! The page tables that the guest boots with: the first GiB, mapped to itself in 2 MiB pages.

use crate::bytes::le8;
use crate::bytes::overwrite;
use crate::bytes::u64_at;
use crate::memory::GuestRam;
use crate::memory::MemoryError;
use vstd::prelude::*;

verus! {

/// Where the top-level table stands in guest memory.
pub const PML4_START: u64 = 0x9000;
/// Where the table of the first 512 GiB stands.
pub const PDPTE_START: u64 = 0xa000;
/// Where the table of the first GiB stands.
pub const PDE_START: u64 = 0xb000;

/// Entries in a page table.
pub const TABLE_ENTRIES: u64 = 512;
/// Entry flags: present and writable.
pub const TABLE_FLAGS: u64 = 0x03;
/// Entry flags: present, writable and a page itself.
pub const PAGE_FLAGS: u64 = 0x83;
/// Bytes in the pages that the tables map.
pub const PAGE_SIZE: u64 = 0x20_0000;

/// The entry that maps the `i`-th page to itself.
pub open spec fn page_entry(i: int) -> u64 {
    (PAGE_SIZE * i + PAGE_FLAGS) as u64
}

/// The bytes of the table of the first GiB.
pub open spec fn directory_bytes() -> Seq<u8> {
    Seq::new((8 * TABLE_ENTRIES) as nat, |k: int| le8(page_entry(k / 8))[k % 8])
}

/// Guest memory with the page tables written over it.
pub open spec fn with_page_tables(ram: Seq<u8>) -> Seq<u8> {
    overwrite(
        overwrite(
            overwrite(ram, PML4_START as int, le8((PDPTE_START + TABLE_FLAGS) as u64)),
            PDPTE_START as int,
            le8((PDE_START + TABLE_FLAGS) as u64),
        ),
        PDE_START as int,
        directory_bytes(),
    )
}

/// Bit `weight` (a power of two) of a page-table entry.
#[verifier::inline]
pub open spec fn entry_bit(entry: int, weight: int) -> bool {
    entry / weight % 2 == 1
}

/// The part of an entry that is an address, when what it names is aligned to `align`.
#[verifier::inline]
pub open spec fn entry_address(entry: int, align: int) -> int {
    entry % 0x10_0000_0000_0000 / align * align
}

/// Where a linear address leads.
pub struct Translation {
    /// The physical address.
    pub address: int,
    /// Whether every entry on the way allows writing.
    pub writable: bool,
}

/// What the entries that a walk meets, from the top-level table down, make of the linear address
/// `vaddr`: nothing where one of them is not present, and no entry below a page counts.
pub open spec fn translation(vaddr: int, e4: int, e3: int, e2: int, e1: int) -> Option<
    Translation,
> {
    if !entry_bit(e4, 1) || !entry_bit(e3, 1) {
        None
    } else if entry_bit(e3, 0x80) {
        Some(
            Translation {
                address: entry_address(e3, 0x4000_0000) + vaddr % 0x4000_0000,
                writable: entry_bit(e4, 2) && entry_bit(e3, 2),
            },
        )
    } else if !entry_bit(e2, 1) {
        None
    } else if entry_bit(e2, 0x80) {
        Some(
            Translation {
                address: entry_address(e2, 0x20_0000) + vaddr % 0x20_0000,
                writable: entry_bit(e4, 2) && entry_bit(e3, 2) && entry_bit(e2, 2),
            },
        )
    } else if !entry_bit(e1, 1) {
        None
    } else {
        Some(
            Translation {
                address: entry_address(e1, 0x1000) + vaddr % 0x1000,
                writable: entry_bit(e4, 2) && entry_bit(e3, 2) && entry_bit(e2, 2) && entry_bit(
                    e1,
                    2,
                ),
            },
        )
    }
}

/// The translation of the linear address `vaddr`, as a processor with four-level paging finds it in
/// the tables that start at physical address `root`.
pub open spec fn translate(ram: Seq<u8>, root: int, vaddr: int) -> Option<Translation> {
    let e4 = u64_at(ram, root + 8 * (vaddr / 0x80_0000_0000 % 512));
    let e3 = u64_at(ram, entry_address(e4, 0x1000) + 8 * (vaddr / 0x4000_0000 % 512));
    let e2 = u64_at(ram, entry_address(e3, 0x1000) + 8 * (vaddr / 0x20_0000 % 512));
    let e1 = u64_at(ram, entry_address(e2, 0x1000) + 8 * (vaddr / 0x1000 % 512));
    translation(vaddr, e4, e3, e2, e1)
}

/// Writes the page tables into guest memory.
pub fn write_page_tables(ram: &mut GuestRam) -> (r: Result<(), MemoryError>)
    requires
        old(ram).wf(),
    ensures
        final(ram).wf(),
        final(ram)@ == with_page_tables(old(ram)@),
        r is Ok <==> old(ram)@.len() >= PDE_START + 8 * TABLE_ENTRIES,
        r matches Err(e) ==> e is Access,
{
    let ghost ram0 = ram@;
    let ghost ram1 = overwrite(ram0, PML4_START as int, le8((PDPTE_START + TABLE_FLAGS) as u64));
    let ghost ram2 = overwrite(ram1, PDPTE_START as int, le8((PDE_START + TABLE_FLAGS) as u64));
    assert(0xa000u64 | 0x03 == 0xa003u64) by (bit_vector);
    assert(0xb000u64 | 0x03 == 0xb003u64) by (bit_vector);
    match ram.write_u64(PDPTE_START | TABLE_FLAGS, PML4_START) {
        Ok(()) => {},
        Err(e) => {
            assert(with_page_tables(ram0) =~= ram1);
            return Err(e);
        },
    }
    match ram.write_u64(PDE_START | TABLE_FLAGS, PDPTE_START) {
        Ok(()) => {},
        Err(e) => {
            assert(with_page_tables(ram0) =~= ram2);
            return Err(e);
        },
    }
    let mut i: u64 = 0;
    proof {
        assert(overwrite(ram2, PDE_START as int, directory_bytes().take(0)) =~= ram2);
    }
    while i < 512
        invariant
            i <= 512,
            ram.wf(),
            ram2.len() == ram0.len(),
            ram0 == old(ram)@,
            with_page_tables(ram0) == overwrite(ram2, PDE_START as int, directory_bytes()),
            ram@ == overwrite(ram2, PDE_START as int, directory_bytes().take(8 * i as int)),
            i > 0 ==> ram0.len() >= PDE_START + 8 * i,
        decreases 512 - i,
    {
        assert((i << 21) | 0x83 == 0x20_0000 * i + 0x83) by (bit_vector)
            requires
                i < 512,
        ;
        let res = ram.write_u64((i << 21) | PAGE_FLAGS, PDE_START + i * 8);
        proof {
            let part = directory_bytes().take(8 * (i + 1) as int);
            let next = overwrite(ram2, PDE_START as int, part);
            assert forall|k: int| 0 <= k < ram0.len() implies ram@[k] == next[k] by {
                let d = k - PDE_START;
                if 8 * i <= d < 8 * i + 8 {
                    assert(d / 8 == i && d % 8 == d - 8 * i);
                }
            }
            assert(ram@ =~= next);
        }
        match res {
            Ok(()) => {},
            Err(e) => {
                assert(with_page_tables(ram0) =~= ram@);
                return Err(e);
            },
        }
        i = i + 1;
    }
    assert(directory_bytes().take(4096) =~= directory_bytes());
    Ok(())
}

/// Guest memory holds the page tables: the entries that a walk of the first GiB can meet are those
/// that [`with_page_tables`] writes.
pub open spec fn has_page_tables(ram: Seq<u8>) -> bool {
    &&& ram.len() >= PDE_START + 8 * TABLE_ENTRIES
    &&& u64_at(ram, PML4_START as int) == PDPTE_START + TABLE_FLAGS
    &&& u64_at(ram, PDPTE_START as int) == PDE_START + TABLE_FLAGS
    &&& forall|i: int|
        0 <= i < TABLE_ENTRIES ==> #[trigger] u64_at(ram, PDE_START + 8 * i) == page_entry(i)
}

/// Where the page tables fit, writing them puts them there.
pub proof fn page_tables_are_written(ram: Seq<u8>)
    requires
        ram.len() >= PDE_START + 8 * TABLE_ENTRIES,
    ensures
        has_page_tables(with_page_tables(ram)),
{
    let out = with_page_tables(ram);
    let e4 = (PDPTE_START + TABLE_FLAGS) as u64;
    let e3 = (PDE_START + TABLE_FLAGS) as u64;
    let at4 = PML4_START as int;
    let at3 = PDPTE_START as int;
    crate::bytes::u64_read_back(ram, at4, e4);
    crate::bytes::u64_at_is_local(out, overwrite(ram, at4, le8(e4)), at4);
    crate::bytes::u64_read_back(ram, at3, e3);
    crate::bytes::u64_at_is_local(out, overwrite(ram, at3, le8(e3)), at3);
    assert forall|i: int| 0 <= i < TABLE_ENTRIES implies #[trigger] u64_at(out, PDE_START + 8 * i)
        == page_entry(i) by {
        let at2 = PDE_START + 8 * i;
        let e2 = page_entry(i);
        crate::bytes::u64_read_back(ram, at2, e2);
        let alone = overwrite(ram, at2, le8(e2));
        assert forall|k: int| at2 <= k < at2 + 8 implies out[k] == alone[k] by {
            let d = k - PDE_START;
            assert(d / 8 == i && d % 8 == k - at2);
        }
        crate::bytes::u64_at_is_local(out, alone, at2);
    }
}

/// The page tables map every address of the first GiB to itself, writable.
pub proof fn first_gib_is_identity_mapped(ram: Seq<u8>, vaddr: int)
    requires
        has_page_tables(ram),
        0 <= vaddr < 0x4000_0000,
    ensures
        translate(ram, PML4_START as int, vaddr) == Some(
            Translation { address: vaddr, writable: true },
        ),
{
    let i = vaddr / 0x20_0000;
    assert(PDE_START + 8 * (vaddr / 0x20_0000 % 512) == PDE_START + 8 * i);
    let e2 = u64_at(ram, PDE_START + 8 * i);
    assert(e2 == page_entry(i));
    let e1 = u64_at(ram, entry_address(e2, 0x1000) + 8 * (vaddr / 0x1000 % 512));
    page_entry_decodes(i);
    assert(translation(vaddr, 0xa003, 0xb003, e2, e1) == Some(
        Translation { address: vaddr, writable: true },
    ));
    assert(PML4_START + 8 * (vaddr / 0x80_0000_0000 % 512) == PML4_START);
    assert(PDPTE_START + 8 * (vaddr / 0x4000_0000 % 512) == PDPTE_START);
}

/// The entry of the `i`-th page is present, writable, a page, and names the page's own address.
pub proof fn page_entry_decodes(i: int)
    requires
        0 <= i < TABLE_ENTRIES,
    ensures
        entry_bit(page_entry(i) as int, 1),
        entry_bit(page_entry(i) as int, 2),
        entry_bit(page_entry(i) as int, 0x80),
        entry_address(page_entry(i) as int, 0x20_0000) == PAGE_SIZE * i,
{
}

/// Writing the page tables leaves every byte outside the entries in use as it was: the first entry of
/// each upper table, and all of the directory.
pub proof fn page_tables_touch_only_their_entries(ram: Seq<u8>, at: int)
    requires
        0 <= at < ram.len(),
        !(PML4_START <= at < PML4_START + 8),
        !(PDPTE_START <= at < PDPTE_START + 8),
        !(PDE_START <= at < PDE_START + 8 * TABLE_ENTRIES),
    ensures
        with_page_tables(ram)[at] == ram[at],
{
}

/// Writing the page tables gives the processor that starts its walk at 0x9000 every address of the
/// first GiB, writable, where it says. It succeeds exactly where the tables fit.
pub proof fn written_tables_map_first_gib(
    ram: &mut GuestRam,
    r: Result<(), MemoryError>,
    vaddr: int,
)
    requires
        call_ensures(write_page_tables, (ram,), r),
        0 <= vaddr < 0x4000_0000,
    ensures
        r is Ok <==> old(ram)@.len() >= 0xc000,
        r matches Err(e) ==> e is Access,
        r is Ok ==> translate(final(ram)@, 0x9000, vaddr) == Some(
            Translation { address: vaddr, writable: true },
        ),
{
    if r is Ok {
        page_tables_are_written(old(ram)@);
        first_gib_is_identity_mapped(final(ram)@, vaddr);
    }
}

/// Byte by byte, the tables are three entries deep: at 0x9000 one that is present, writable and
/// names 0xa000; there one that names 0xb000; and there 512, each 2 MiB above the one before, that
/// are present, writable and pages themselves. No other bit of an entry is set, and no other byte
/// of memory changes. Where memory ends before the tables do, so does what is written.
pub proof fn tables_in_memory(ram: &mut GuestRam, r: Result<(), MemoryError>, k: int)
    requires
        call_ensures(write_page_tables, (ram,), r),
        0 <= k < old(ram)@.len(),
    ensures
        final(ram)@.len() == old(ram)@.len(),
        final(ram)@[k] == if 0x9000 <= k < 0x9008 {
            if k == 0x9000 {
                0x03
            } else if k == 0x9001 {
                0xa0
            } else {
                0u8
            }
        } else if 0xa000 <= k < 0xa008 {
            if k == 0xa000 {
                0x03
            } else if k == 0xa001 {
                0xb0
            } else {
                0
            }
        } else if 0xb000 <= k < 0xc000 {
            let page = (k - 0xb000) / 8;
            if k % 8 == 0 {
                0x83
            } else if k % 8 == 2 {
                (page % 8 * 32) as u8
            } else if k % 8 == 3 {
                (page / 8) as u8
            } else {
                0
            }
        } else {
            old(ram)@[k]
        },
{
    assert(le8(0xa003) =~= seq![0x03u8, 0xa0, 0, 0, 0, 0, 0, 0]);
    assert(le8(0xb003) =~= seq![0x03u8, 0xb0, 0, 0, 0, 0, 0, 0]);
    if 0xb000 <= k < 0xc000 {
        let d = k - 0xb000;
        page_entry_bytes(d / 8);
        assert(d % 8 == k % 8);
        assert(final(ram)@[k] == le8(page_entry(d / 8))[d % 8]);
    }
}

proof fn page_entry_bytes(i: int)
    requires
        0 <= i < 512,
    ensures
        le8(page_entry(i)) == seq![
            0x83u8,
            0,
            (i % 8 * 32) as u8,
            (i / 8) as u8,
            0,
            0,
            0,
            0,
        ],
{
    let v = page_entry(i);
    assert(v == 0x20_0000 * i + 0x83);
    assert(v % 0x1_0000_0000 == v && v / 0x1_0000_0000 == 0);
    assert(v % 0x100 == 0x83);
    assert(v / 0x100 == 0x2000 * i);
    assert(v / 0x100 % 0x100 == 0);
    assert(v / 0x1_0000 == 0x20 * i);
    assert(0x20 * i % 0x100 == i % 8 * 32);
    assert(v / 0x100_0000 == i / 8);
    assert(le8(v) =~= seq![0x83u8, 0, (i % 8 * 32) as u8, (i / 8) as u8, 0, 0, 0, 0]);
}

} // verus!
