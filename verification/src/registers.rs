//! The processor state that the guest boots with: 64-bit mode, with paging on.

use crate::bytes::u64_at;
use crate::gdt::Segment;
use crate::gdt::BOOT_GDT_OFFSET;
use crate::paging::PML4_START;
use vstd::prelude::*;

verus! {

/// CR0: protected mode.
pub const X86_CR0_PE: u64 = 0x1;
/// CR0: paging.
pub const X86_CR0_PG: u64 = 0x8000_0000;
/// CR4: physical address extension.
pub const X86_CR4_PAE: u64 = 0x20;
/// EFER: long mode enabled.
pub const EFER_LME: u64 = 0x100;
/// EFER: long mode active.
pub const EFER_LMA: u64 = 0x400;

/// RFLAGS: the bit that is always set.
pub const BOOT_RFLAGS: u64 = 0x2;
/// Top of the boot stack.
pub const BOOT_STACK: u64 = 0x8ff0;

/// A descriptor table register.
#[derive(Clone, Copy, Debug, PartialEq, Eq)]
pub struct DescriptorTable {
    pub base: u64,
    pub limit: u16,
    pub padding: [u16; 3],
}

/// The special registers of a virtual processor.
#[derive(Clone, Copy, Debug, PartialEq, Eq)]
pub struct SpecialRegisters {
    pub cs: Segment,
    pub ds: Segment,
    pub es: Segment,
    pub fs: Segment,
    pub gs: Segment,
    pub ss: Segment,
    pub tr: Segment,
    pub ldt: Segment,
    pub gdt: DescriptorTable,
    pub idt: DescriptorTable,
    pub cr0: u64,
    pub cr2: u64,
    pub cr3: u64,
    pub cr4: u64,
    pub cr8: u64,
    pub efer: u64,
    pub apic_base: u64,
    pub interrupt_bitmap: [u64; 4],
}

/// The general registers of a virtual processor.
#[derive(Clone, Copy, Debug, PartialEq, Eq, Structural)]
pub struct Registers {
    pub rax: u64,
    pub rbx: u64,
    pub rcx: u64,
    pub rdx: u64,
    pub rsi: u64,
    pub rdi: u64,
    pub rsp: u64,
    pub rbp: u64,
    pub r8: u64,
    pub r9: u64,
    pub r10: u64,
    pub r11: u64,
    pub r12: u64,
    pub r13: u64,
    pub r14: u64,
    pub r15: u64,
    pub rip: u64,
    pub rflags: u64,
}

/// The special registers after the switch to 64-bit mode: flat segments out of the boot descriptor
/// table, the boot page tables, and paging on. What has no part in the switch stays.
pub open spec fn long_mode(sregs: SpecialRegisters) -> SpecialRegisters {
    let code = crate::gdt::segment_of(crate::gdt::boot_descriptors()[1], 1);
    let data = crate::gdt::segment_of(crate::gdt::boot_descriptors()[2], 2);
    SpecialRegisters {
        cs: code,
        ds: data,
        es: data,
        fs: data,
        gs: data,
        ss: data,
        gdt: DescriptorTable { base: BOOT_GDT_OFFSET, limit: 23, padding: sregs.gdt.padding },
        cr0: sregs.cr0 | (X86_CR0_PE | X86_CR0_PG),
        cr3: PML4_START,
        cr4: sregs.cr4 | X86_CR4_PAE,
        efer: sregs.efer | (EFER_LME | EFER_LMA),
        ..sregs
    }
}

/// The general registers at the kernel's entry point.
pub open spec fn at_entry(regs: Registers, entry: u64) -> Registers {
    Registers {
        rflags: BOOT_RFLAGS,
        rip: entry,
        rsi: crate::bootparams::ZERO_PAGE_START,
        rsp: BOOT_STACK,
        ..regs
    }
}

/// Switches a processor to 64-bit mode.
pub fn enter_long_mode(sregs: &mut SpecialRegisters)
    ensures
        *final(sregs) == long_mode(*old(sregs)),
{
    let gdt = crate::gdt::boot_gdt();
    let code_seg = crate::gdt::seg_from_gdt(gdt[1], 1);
    let data_seg = crate::gdt::seg_from_gdt(gdt[2], 2);
    sregs.gdt.base = BOOT_GDT_OFFSET;
    sregs.gdt.limit = (gdt.as_slice().len() * 8 - 1) as u16;
    sregs.cs = code_seg;
    sregs.ds = data_seg;
    sregs.es = data_seg;
    sregs.fs = data_seg;
    sregs.gs = data_seg;
    sregs.ss = data_seg;
    sregs.cr3 = PML4_START;
    sregs.cr4 = sregs.cr4 | X86_CR4_PAE;
    sregs.cr0 = sregs.cr0 | (X86_CR0_PE | X86_CR0_PG);
    sregs.efer = sregs.efer | (EFER_LME | EFER_LMA);
}

/// Points a processor at the kernel's entry point, with the boot parameters at hand.
pub fn enter_kernel(regs: &mut Registers, entry: u64)
    ensures
        *final(regs) == at_entry(*old(regs), entry),
{
    regs.rflags = BOOT_RFLAGS;
    regs.rip = entry;
    regs.rsi = crate::bootparams::ZERO_PAGE_START;
    regs.rsp = BOOT_STACK;
}

/// The switch turns on protected mode, paging, physical address extension and long mode, and leaves
/// every other control bit as it was.
pub proof fn mode_bits_are_set(sregs: SpecialRegisters)
    ensures
        ({
            let s = long_mode(sregs);
            &&& s.cr0 & 0x8000_0001 == 0x8000_0001
            &&& s.cr0 & !0x8000_0001u64 == sregs.cr0 & !0x8000_0001u64
            &&& s.cr4 & 0x20 == 0x20
            &&& s.cr4 & !0x20u64 == sregs.cr4 & !0x20u64
            &&& s.efer & 0x500 == 0x500
            &&& s.efer & !0x500u64 == sregs.efer & !0x500u64
        }),
{
    let a = sregs.cr0;
    let b = sregs.cr4;
    let c = sregs.efer;
    assert(0x1u64 | 0x8000_0000 == 0x8000_0001u64 && 0x100u64 | 0x400 == 0x500u64) by (bit_vector);
    assert((a | 0x8000_0001) & 0x8000_0001 == 0x8000_0001 && (a | 0x8000_0001) & !0x8000_0001u64
        == a & !0x8000_0001u64) by (bit_vector);
    assert((b | 0x20) & 0x20 == 0x20 && (b | 0x20) & !0x20u64 == b & !0x20u64) by (bit_vector);
    assert((c | 0x500) & 0x500 == 0x500 && (c | 0x500) & !0x500u64 == c & !0x500u64)
        by (bit_vector);
}

/// Switching twice is switching once.
pub proof fn long_mode_is_idempotent(sregs: SpecialRegisters)
    ensures
        long_mode(long_mode(sregs)) == long_mode(sregs),
{
    let a = sregs.cr0;
    let b = sregs.cr4;
    let c = sregs.efer;
    let p = X86_CR0_PE | X86_CR0_PG;
    let e = EFER_LME | EFER_LMA;
    assert((a | p) | p == a | p && (b | 0x20) | 0x20 == b | 0x20 && (c | e) | e == c | e)
        by (bit_vector);
}

/// The table register covers exactly the descriptor table in guest memory, and each segment is what
/// loading its selector from that table would give.
pub proof fn segments_match_the_table(ram: Seq<u8>, sregs: SpecialRegisters)
    requires
        ram.len() >= BOOT_GDT_OFFSET + 24,
    ensures
        ({
            let s = long_mode(sregs);
            let table = crate::gdt::with_gdt(ram);
            &&& s.gdt.base == BOOT_GDT_OFFSET
            &&& s.gdt.limit + 1 == crate::gdt::gdt_bytes().len()
            &&& s.cs == crate::gdt::segment_of(
                u64_at(table, s.gdt.base + s.cs.selector) as u64,
                (s.cs.selector / 8) as u8,
            )
            &&& s.ds == crate::gdt::segment_of(
                u64_at(table, s.gdt.base + s.ds.selector) as u64,
                (s.ds.selector / 8) as u8,
            )
            &&& s.es == s.ds && s.fs == s.ds && s.gs == s.ds && s.ss == s.ds
        }),
{
    crate::gdt::gdt_is_written(ram, 1);
    crate::gdt::gdt_is_written(ram, 2);
}

/// With the boot page tables in memory, a processor that has made the switch reads and writes every
/// address of the first GiB where it says: the kernel's entry point and stack are where they were
/// put.
pub proof fn long_mode_sees_identity(ram: Seq<u8>, sregs: SpecialRegisters, vaddr: int)
    requires
        crate::paging::has_page_tables(ram),
        0 <= vaddr < 0x4000_0000,
    ensures
        crate::paging::translate(ram, long_mode(sregs).cr3 as int, vaddr) == Some(
            crate::paging::Translation { address: vaddr, writable: true },
        ),
{
    crate::paging::first_gib_is_identity_mapped(ram, vaddr);
}

/// Whatever the registers held, a processor that enters the kernel goes on at the entry point, with
/// the boot parameters' address in `rsi`, the top of the boot stack in `rsp` and no flag set but
/// the one that always is. No other register changes.
pub proof fn kernel_is_entered_at_its_entry_point(regs: &mut Registers, entry: u64)
    requires
        call_ensures(enter_kernel, (regs, entry), ()),
    ensures
        final(regs).rip == entry,
        final(regs).rsi == 0x7000,
        final(regs).rsp == 0x8ff0,
        final(regs).rflags == 2,
        *final(regs) == (Registers {
            rip: final(regs).rip,
            rsi: final(regs).rsi,
            rsp: final(regs).rsp,
            rflags: final(regs).rflags,
            ..*old(regs)
        }),
{
}

/// A processor that makes the switch keeps every control bit that it had, gains those for protected
/// mode, paging, physical address extension and long mode, and gains no other.
pub proof fn switch_sets_mode_bits_alone(sregs: &mut SpecialRegisters)
    requires
        call_ensures(enter_long_mode, (sregs,), ()),
    ensures
        final(sregs).cr0 & 0x8000_0001 == 0x8000_0001,
        final(sregs).cr0 & 0xffff_ffff_7fff_fffe == old(sregs).cr0 & 0xffff_ffff_7fff_fffe,
        final(sregs).cr4 & 0x20 == 0x20,
        final(sregs).cr4 & 0xffff_ffff_ffff_ffdf == old(sregs).cr4 & 0xffff_ffff_ffff_ffdf,
        final(sregs).efer & 0x500 == 0x500,
        final(sregs).efer & 0xffff_ffff_ffff_faff == old(sregs).efer & 0xffff_ffff_ffff_faff,
{
    mode_bits_are_set(*old(sregs));
    assert(!0x8000_0001u64 == 0xffff_ffff_7fff_fffeu64 && !0x20u64 == 0xffff_ffff_ffff_ffdfu64
        && !0x500u64 == 0xffff_ffff_ffff_faffu64) by (bit_vector);
}

/// A processor that makes the switch runs in a flat 64-bit code segment with flat writable data
/// segments, at the highest privilege; its table register covers the three descriptors at 0x500,
/// and its page walks start at 0x9000.
pub proof fn switch_gives_flat_segments(sregs: &mut SpecialRegisters)
    requires
        call_ensures(enter_long_mode, (sregs,), ()),
    ensures
        final(sregs).cs == (Segment {
            base: 0,
            limit: 0xf_ffff,
            selector: 8,
            type_: 11,
            present: 1,
            dpl: 0,
            db: 0,
            s: 1,
            l: 1,
            g: 1,
            avl: 0,
            unusable: 0,
            padding: 0,
        }),
        final(sregs).ds == (Segment {
            base: 0,
            limit: 0xf_ffff,
            selector: 16,
            type_: 3,
            present: 1,
            dpl: 0,
            db: 1,
            s: 1,
            l: 0,
            g: 1,
            avl: 0,
            unusable: 0,
            padding: 0,
        }),
        final(sregs).es == final(sregs).ds && final(sregs).fs == final(sregs).ds,
        final(sregs).gs == final(sregs).ds && final(sregs).ss == final(sregs).ds,
        final(sregs).gdt.base == 0x500 && final(sregs).gdt.limit == 23,
        final(sregs).cr3 == 0x9000,
{
    crate::gdt::boot_descriptor_values();
}

/// What has no part in the switch stays: the task and local table registers, the interrupt table,
/// the fault address, the task priority, the interrupt controller and the pending interrupts.
pub proof fn switch_leaves_the_rest(sregs: &mut SpecialRegisters)
    requires
        call_ensures(enter_long_mode, (sregs,), ()),
    ensures
        final(sregs).tr == old(sregs).tr && final(sregs).ldt == old(sregs).ldt,
        final(sregs).idt == old(sregs).idt,
        final(sregs).gdt.padding == old(sregs).gdt.padding,
        final(sregs).cr2 == old(sregs).cr2 && final(sregs).cr8 == old(sregs).cr8,
        final(sregs).apic_base == old(sregs).apic_base,
        final(sregs).interrupt_bitmap == old(sregs).interrupt_bitmap,
{
}

} // verus!
