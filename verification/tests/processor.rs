use microvmm::gdt::boot_gdt;
use microvmm::gdt::gdt_entry;
use microvmm::gdt::seg_from_gdt;
use microvmm::gdt::Segment;
use microvmm::registers::enter_kernel;
use microvmm::registers::enter_long_mode;
use microvmm::registers::DescriptorTable;
use microvmm::registers::Registers;
use microvmm::registers::SpecialRegisters;

fn some_segment(n: u8) -> Segment {
    Segment {
        base: n as u64,
        limit: n as u32,
        selector: n as u16,
        type_: n,
        present: n,
        dpl: n,
        db: n,
        s: n,
        l: n,
        g: n,
        avl: n,
        unusable: n,
        padding: n,
    }
}

fn some_special_registers() -> SpecialRegisters {
    SpecialRegisters {
        cs: some_segment(1),
        ds: some_segment(2),
        es: some_segment(3),
        fs: some_segment(4),
        gs: some_segment(5),
        ss: some_segment(6),
        tr: some_segment(7),
        ldt: some_segment(8),
        gdt: DescriptorTable { base: 9, limit: 10, padding: [11, 12, 13] },
        idt: DescriptorTable { base: 14, limit: 15, padding: [16, 17, 18] },
        cr0: 0x6000_0010,
        cr2: 19,
        cr3: 20,
        cr4: 0x40,
        cr8: 21,
        efer: 0x801,
        apic_base: 22,
        interrupt_bitmap: [23, 24, 25, 26],
    }
}

#[test]
fn descriptors_of_the_boot_segments() {
    assert_eq!(gdt_entry(0, 0, 0), 0);
    assert_eq!(gdt_entry(0xa09b, 0, 0xfffff), 0x00af_9b00_0000_ffff);
    assert_eq!(gdt_entry(0xc093, 0, 0xfffff), 0x00cf_9300_0000_ffff);
    assert_eq!(boot_gdt(), [0, 0x00af_9b00_0000_ffff, 0x00cf_9300_0000_ffff]);
}

#[test]
fn descriptor_with_every_bit() {
    assert_eq!(gdt_entry(0xffff, 0xffff_ffff, 0xffff_ffff), 0xffff_ffff_ffff_ffff);
    assert_eq!(gdt_entry(0x0f00, 0, 0xfff0_0000), 0);
    assert_eq!(gdt_entry(0xa09b, 0x1234_5678, 0xabcde), 0x12aa_9b34_5678_bcde);
}

#[test]
fn segments_out_of_descriptors() {
    assert_eq!(
        seg_from_gdt(0x00af_9b00_0000_ffff, 1),
        Segment {
            base: 0,
            limit: 0xfffff,
            selector: 8,
            type_: 0xb,
            present: 1,
            dpl: 0,
            db: 0,
            s: 1,
            l: 1,
            g: 1,
            avl: 0,
            unusable: 0,
            padding: 0,
        }
    );
    assert_eq!(
        seg_from_gdt(0x1256_6234_5678_bcde, 255),
        Segment {
            base: 0x1234_5678,
            limit: 0x6bcde,
            selector: 2040,
            type_: 2,
            present: 0,
            dpl: 3,
            db: 1,
            s: 0,
            l: 0,
            g: 0,
            avl: 1,
            unusable: 0,
            padding: 0,
        }
    );
}

#[test]
fn a_descriptor_gives_back_what_it_was_built_from() {
    for (flags, base, limit) in
        [(0xa09bu16, 0u32, 0xfffffu32), (0x50f3, 0xdead_beef, 0x12345), (0xf0ff, 1, 0)]
    {
        let seg = seg_from_gdt(gdt_entry(flags, base, limit), 3);
        assert_eq!(seg.base, base as u64);
        assert_eq!(seg.limit, limit);
        let low = seg.type_ | seg.s << 4 | seg.dpl << 5 | seg.present << 7;
        let high = seg.avl | seg.l << 1 | seg.db << 2 | seg.g << 3;
        assert_eq!((high as u16) << 12 | low as u16, flags);
        assert_eq!(seg.selector, 24);
    }
}

#[test]
fn the_switch_to_long_mode() {
    let before = some_special_registers();
    let mut after = before;
    enter_long_mode(&mut after);
    let code = seg_from_gdt(0x00af_9b00_0000_ffff, 1);
    let data = seg_from_gdt(0x00cf_9300_0000_ffff, 2);
    assert_eq!(
        after,
        SpecialRegisters {
            cs: code,
            ds: data,
            es: data,
            fs: data,
            gs: data,
            ss: data,
            gdt: DescriptorTable { base: 0x500, limit: 23, padding: [11, 12, 13] },
            cr0: 0xe000_0011,
            cr3: 0x9000,
            cr4: 0x60,
            efer: 0xd01,
            ..before
        }
    );
    let mut again = after;
    enter_long_mode(&mut again);
    assert_eq!(again, after);
}

#[test]
fn the_registers_at_the_entry_point() {
    let before = Registers {
        rax: 1,
        rbx: 2,
        rcx: 3,
        rdx: 4,
        rsi: 5,
        rdi: 6,
        rsp: 7,
        rbp: 8,
        r8: 9,
        r9: 10,
        r10: 11,
        r11: 12,
        r12: 13,
        r13: 14,
        r14: 15,
        r15: 16,
        rip: 17,
        rflags: 18,
    };
    let mut after = before;
    enter_kernel(&mut after, 0x100_0200);
    assert_eq!(
        after,
        Registers { rip: 0x100_0200, rsi: 0x7000, rsp: 0x8ff0, rflags: 2, ..before }
    );
}
