use linux_loader::loader::bootparam::boot_params as ZeroPage;
use microvmm::boot::initrd_address;
use microvmm::boot::load_boot_image;
use microvmm::boot::load_cmdline;
use microvmm::boot::load_initrd;
use microvmm::boot::load_parameters;
use microvmm::boot::mem_size;
use microvmm::boot::memory_slot;
use microvmm::boot::write_boot_params;
use microvmm::boot::BootError;
use microvmm::boot::MemorySlot;
use microvmm::bootparams::add_e820_entry;
use microvmm::bootparams::boot_params;
use microvmm::bootparams::BootParams;
use microvmm::bootparams::E820Entry;
use microvmm::bytes::low_u32;
use microvmm::bytes::u16_bytes;
use microvmm::bytes::u32_bytes;
use microvmm::bytes::u32_from_bytes;
use microvmm::bytes::u64_bytes;
use microvmm::cmdline::full_cmdline;
use microvmm::cmdline::CmdlineError;
use microvmm::cmdline::InsertError;
use microvmm::cmdline::KernelCmdline;
use microvmm::gdt::write_gdt;
use microvmm::memory::GuestRam;
use microvmm::memory::MemoryError;
use microvmm::paging::write_page_tables;
use vm_memory::ByteValued;
use vm_memory::Bytes;
use vm_memory::GuestAddress;

const DEVICE: &str = "virtio_mmio.device=4K@0xd0000000:5";

fn bytes_of(ram: &GuestRam) -> Vec<u8> {
    let mut all = vec![0u8; ram.size()];
    ram.memory().read_slice(&mut all, GuestAddress(0)).unwrap();
    all
}

fn word(all: &[u8], at: usize) -> u64 {
    let mut b = [0u8; 8];
    b.copy_from_slice(&all[at..at + 8]);
    u64::from_le_bytes(b)
}

#[test]
fn integers_as_bytes() {
    assert_eq!(u16_bytes(0xaa55), [0x55, 0xaa]);
    assert_eq!(u32_bytes(0x5372_6448), *b"HdrS");
    assert_eq!(u64_bytes(0x0123_4567_89ab_cdef), [0xef, 0xcd, 0xab, 0x89, 0x67, 0x45, 0x23, 0x01]);
    assert_eq!(u32_from_bytes([1, 2, 3, 4]), 0x0403_0201);
    assert_eq!(u32_from_bytes(u32_bytes(u32::MAX)), u32::MAX);
    assert_eq!(low_u32(0x1_2345_6789), 0x2345_6789);
}

#[test]
fn memory_sizes() {
    assert_eq!(mem_size(512), 0x2000_0000);
    assert_eq!(mem_size(0), 0);
    assert_eq!(mem_size(1 << 44), 0);
    assert_eq!(mem_size(usize::MAX), usize::MAX - 0xf_ffff);
}

#[test]
fn initramfs_places() {
    assert_eq!(initrd_address(0x2000_0000, 5000), 0x1fff_e000);
    assert_eq!(initrd_address(0x2000_0000, 0), 0x2000_0000);
    assert_eq!(initrd_address(0x2000_0000, 1), 0x1fff_f000);
    assert_eq!(initrd_address(0x2000_0000, 0x1000), 0x1fff_f000);
    assert_eq!(initrd_address(0x2000_0000, 0x1001), 0x1fff_e000);
    assert_eq!(initrd_address(0x2000_0000, 0x2000_0000), 0);
}

#[test]
fn memory_slots() {
    assert_eq!(
        memory_slot(3, 0x1000, 0x2000, 0x7f00_0000_0000),
        MemorySlot {
            slot: 3,
            guest_phys_addr: 0x1000,
            memory_size: 0x2000,
            userspace_addr: 0x7f00_0000_0000,
            flags: 0,
        }
    );
    assert_eq!(memory_slot(0x1_0000_0002, 0, 0, 0).slot, 2);
}

#[test]
fn memory_of_no_size_cannot_be_had() {
    assert!(matches!(GuestRam::new(0), Err(MemoryError::Mapping(_))));
    assert_eq!(GuestRam::new(0x3000).unwrap().size(), 0x3000);
}

#[test]
fn slices_are_written_as_far_as_memory_goes() {
    let mut ram = GuestRam::new(0x1000).unwrap();
    ram.write_slice(&[1, 2, 3], 0x10).unwrap();
    assert_eq!(bytes_of(&ram)[0xf..0x14], [0, 1, 2, 3, 0]);
    ram.write_slice(&[7, 8], 0xffe).unwrap();
    assert_eq!(bytes_of(&ram)[0xffe..], [7, 8]);
    assert!(matches!(ram.write_slice(&[4, 5, 6], 0xffe), Err(MemoryError::Access(_))));
    assert_eq!(bytes_of(&ram)[0xffe..], [4, 5]);
    assert!(matches!(ram.write_slice(&[9], 0x1000), Err(MemoryError::Access(_))));
    assert!(matches!(ram.write_slice(&[9, 9], u64::MAX), Err(MemoryError::Access(_))));
    assert!(ram.write_slice(&[], u64::MAX).is_ok());
}

#[test]
fn words_are_written_little_endian() {
    let mut ram = GuestRam::new(0x1000).unwrap();
    ram.write_u64(0x0123_4567_89ab_cdef, 0x20).unwrap();
    assert_eq!(
        bytes_of(&ram)[0x1f..0x29],
        [0, 0xef, 0xcd, 0xab, 0x89, 0x67, 0x45, 0x23, 0x01, 0]
    );
    ram.write_u64(u64::MAX, 0xff8).unwrap();
    assert!(matches!(ram.write_u64(0x1122, 0xffc), Err(MemoryError::Access(_))));
    assert_eq!(bytes_of(&ram)[0xff8..], [0xff, 0xff, 0xff, 0xff, 0x22, 0x11, 0, 0]);
    assert!(ram.write_u64(1, 0x1000).is_err());
}

#[test]
fn page_tables_map_the_first_gib_to_itself() {
    let mut ram = GuestRam::new(0xc000).unwrap();
    write_page_tables(&mut ram).unwrap();
    let all = bytes_of(&ram);
    assert_eq!(word(&all, 0x9000), 0xa003);
    assert_eq!(word(&all, 0xa000), 0xb003);
    for i in 0..512usize {
        assert_eq!(word(&all, 0xb000 + 8 * i), ((i as u64) << 21) | 0x83);
    }
    for at in (0..0x9000).chain(0x9008..0xa000).chain(0xa008..0xb000) {
        assert_eq!(all[at], 0);
    }
    for vaddr in [0usize, 0x7000, 0x10_0000, 0x2000_0123, 0x3fff_ffff] {
        let four = word(&all, 0x9000 + 8 * (vaddr >> 39 & 511));
        let three = word(&all, (four & !0xfff) as usize + 8 * (vaddr >> 30 & 511));
        let two = word(&all, (three & !0xfff) as usize + 8 * (vaddr >> 21 & 511));
        assert_eq!(two & 0x83, 0x83);
        assert_eq!((two & !0x1f_ffff) as usize + (vaddr & 0x1f_ffff), vaddr);
    }
}

#[test]
fn page_tables_that_do_not_fit() {
    let mut ram = GuestRam::new(0xbfff).unwrap();
    assert!(matches!(write_page_tables(&mut ram), Err(MemoryError::Access(_))));
    let all = bytes_of(&ram);
    assert_eq!(word(&all, 0xa000), 0xb003);
    assert_eq!(word(&all, 0xbff0), (510 << 21) | 0x83);
    assert_eq!(all[0xbff8..], [0x83, 0, 0xe0, 0x3f, 0, 0, 0]);
    assert!(write_page_tables(&mut GuestRam::new(0x9004).unwrap()).is_err());
    assert!(write_page_tables(&mut GuestRam::new(0xa000).unwrap()).is_err());
}

#[test]
fn the_descriptor_table_in_memory() {
    let mut ram = GuestRam::new(0x518).unwrap();
    write_gdt(&mut ram).unwrap();
    let all = bytes_of(&ram);
    assert_eq!(word(&all, 0x500), 0);
    assert_eq!(word(&all, 0x508), 0x00af_9b00_0000_ffff);
    assert_eq!(word(&all, 0x510), 0x00cf_9300_0000_ffff);
    assert!(matches!(
        write_gdt(&mut GuestRam::new(0x517).unwrap()),
        Err(MemoryError::Access(_))
    ));
}

#[test]
fn the_initramfs_in_memory() {
    let mut ram = GuestRam::new(0x10_0000).unwrap();
    let initrd: Vec<u8> = (0..5000u32).map(|i| (i % 251) as u8 + 1).collect();
    assert_eq!(load_initrd(&mut ram, &initrd).unwrap(), 0xf_e000);
    let all = bytes_of(&ram);
    assert_eq!(all[0xf_e000..0xf_e000 + 5000], initrd);
    assert!(all[..0xf_e000].iter().all(|b| *b == 0));
    assert!(all[0xf_e000 + 5000..].iter().all(|b| *b == 0));
    assert_eq!(load_initrd(&mut ram, &[]).unwrap(), 0x10_0000);
}

#[test]
fn command_line_text() {
    assert_eq!(full_cmdline("quiet"), format!("quiet {}", DEVICE));
    assert_eq!(full_cmdline(""), format!(" {}", DEVICE));
    assert_eq!(full_cmdline(" a b "), format!(" a b  {}", DEVICE));
}

#[test]
fn command_line_in_memory() {
    let mut ram = GuestRam::new(0x10_0000).unwrap();
    let args = "console=ttyS0 reboot=k panic=1 rdinit=/init";
    let cmdline = KernelCmdline::new(args).unwrap();
    let expected = format!("{} {}\0", args, DEVICE);
    assert_eq!(cmdline.len().unwrap() + 1, expected.len());
    ram.write_slice(&[0xff; 0x100], 0x2_0000).unwrap();
    load_cmdline(&mut ram, &cmdline).unwrap();
    let all = bytes_of(&ram);
    assert_eq!(all[0x2_0000..0x2_0000 + expected.len()], *expected.as_bytes());
    assert_eq!(all[0x2_0000 + expected.len()], 0xff);
    assert_eq!(all[0x1_ffff], 0);
}

#[test]
fn white_space_before_the_arguments_goes() {
    for (args, expected) in [
        ("", DEVICE.to_string()),
        (" \t\n\u{a0}\u{2003}", DEVICE.to_string()),
        (" \u{3000}quiet ", format!("quiet  {}", DEVICE)),
    ] {
        let mut ram = GuestRam::new(0x3_0000).unwrap();
        let cmdline = KernelCmdline::new(args).unwrap();
        assert_eq!(cmdline.len(), Ok(expected.len()));
        load_cmdline(&mut ram, &cmdline).unwrap();
        let all = bytes_of(&ram);
        assert_eq!(all[0x2_0000..0x2_0000 + expected.len()], *expected.as_bytes());
    }
}

#[test]
fn arguments_that_are_refused() {
    for args in ["a\tb", "caf\u{e9}", "a\0b", "a\u{7f}", "a\n"] {
        assert_eq!(
            KernelCmdline::new(args).err(),
            Some(CmdlineError::Insert(InsertError::InvalidAscii))
        );
    }
    let room = 0x1_0000 - 1 - 35;
    let most = "x".repeat(room);
    assert_eq!(KernelCmdline::new(&most).unwrap().len(), Ok(0xffff));
    let more = "x".repeat(room + 1);
    assert_eq!(
        KernelCmdline::new(&more).err(),
        Some(CmdlineError::Insert(InsertError::TooLarge))
    );
    let both = format!("{}\u{1}", more);
    assert_eq!(
        KernelCmdline::new(&both).err(),
        Some(CmdlineError::Insert(InsertError::InvalidAscii))
    );
}

#[test]
fn a_command_line_that_does_not_fit() {
    let cmdline = KernelCmdline::new("").unwrap();
    let mut ram = GuestRam::new(0x2_0000 + 34).unwrap();
    ram.write_slice(&[7; 34], 0x2_0000).unwrap();
    assert!(matches!(load_cmdline(&mut ram, &cmdline), Err(MemoryError::Cmdline(_))));
    assert_eq!(bytes_of(&ram)[0x2_0000..], [7; 34]);
    let mut ram = GuestRam::new(0x2_0000 + 35).unwrap();
    load_cmdline(&mut ram, &cmdline).unwrap();
    let mut low = GuestRam::new(0x1000).unwrap();
    assert!(low.write_cmdline(&cmdline, u64::MAX).is_err());
}

#[test]
fn the_memory_map_grows_at_its_end() {
    let mut params = BootParams::zeroed();
    assert_eq!(params.e820_entries, 0);
    for i in 0..128u64 {
        add_e820_entry(&mut params, i, 2 * i, i as u32 + 1);
    }
    assert_eq!(params.e820_entries, 128);
    for i in 0..128u64 {
        assert_eq!(
            params.e820_table[i as usize],
            E820Entry { addr: i, size: 2 * i, mem_type: i as u32 + 1 }
        );
    }
}

#[test]
fn boot_parameters_of_a_guest() {
    let params = boot_params(0x2000_0000, 0x1fff_e000, 5000, 78);
    assert_eq!(params.hdr.type_of_loader, 0xff);
    assert_eq!(params.hdr.boot_flag, 0xaa55);
    assert_eq!(params.hdr.header, 0x5372_6448);
    assert_eq!(params.hdr.cmd_line_ptr, 0x2_0000);
    assert_eq!(params.hdr.cmdline_size, 79);
    assert_eq!(params.hdr.ramdisk_image, 0x1fff_e000);
    assert_eq!(params.hdr.ramdisk_size, 5000);
    assert_eq!(params.e820_entries, 2);
    assert_eq!(params.e820_table[0], E820Entry { addr: 0, size: 0x9_fc00, mem_type: 1 });
    assert_eq!(
        params.e820_table[1],
        E820Entry { addr: 0x10_0000, size: 0x1ff0_0000, mem_type: 1 }
    );
    assert_eq!(params.e820_table[2], E820Entry { addr: 0, size: 0, mem_type: 0 });
    let high = boot_params(0x10_0000, 0x1_2345_6000, 0x2_0000_0001, 0x1_0000_0000);
    assert_eq!(high.hdr.ramdisk_image, 0x2345_6000);
    assert_eq!(high.hdr.ramdisk_size, 1);
    assert_eq!(high.hdr.cmdline_size, 1);
    assert_eq!(high.e820_table[1].size, 0);
}

#[test]
fn the_zero_page_is_what_the_kernel_reads() {
    let mut params = boot_params(0x2000_0000, 0x1fff_e000, 5000, 78);
    add_e820_entry(&mut params, 0x1111_2222_3333_4444, 0x5555_6666_7777_8888, 0x99aa_bbcc);
    let bytes = params.to_zero_page();
    let mut page = ZeroPage::default();
    page.as_mut_slice().copy_from_slice(&bytes);
    let mut expected = ZeroPage::default();
    expected.hdr.type_of_loader = 0xff;
    expected.hdr.boot_flag = 0xaa55;
    expected.hdr.header = 0x5372_6448;
    expected.hdr.cmd_line_ptr = 0x2_0000;
    expected.hdr.cmdline_size = 79;
    expected.hdr.ramdisk_image = 0x1fff_e000;
    expected.hdr.ramdisk_size = 5000;
    expected.e820_entries = 3;
    for (i, (addr, size, mem_type)) in [
        (0u64, 0x9_fc00u64, 1u32),
        (0x10_0000, 0x1ff0_0000, 1),
        (0x1111_2222_3333_4444, 0x5555_6666_7777_8888, 0x99aa_bbcc),
    ]
    .into_iter()
    .enumerate()
    {
        let entry = page.e820_table[i];
        assert_eq!(
            format!("{:?}", entry),
            format!("boot_e820_entry {{ addr: {}, size: {}, type: {} }}", addr, size, mem_type)
        );
        expected.e820_table[i] = entry;
    }
    assert_eq!(page, expected);
}

#[test]
fn boot_parameters_in_memory() {
    let params = boot_params(0x10_0000, 0xf_e000, 5000, 78);
    let mut ram = GuestRam::new(0x8001).unwrap();
    write_boot_params(&mut ram, &params).unwrap();
    let all = bytes_of(&ram);
    assert_eq!(all[0x7000..0x8000], params.to_zero_page());
    assert!(all[..0x7000].iter().all(|b| *b == 0));
    assert_eq!(all[0x7202..0x7206], *b"HdrS");
    let mut small = GuestRam::new(0x8000).unwrap();
    assert!(matches!(write_boot_params(&mut small, &params), Err(MemoryError::BootParams(_))));
    assert!(bytes_of(&small).iter().all(|b| *b == 0));
}

#[test]
fn the_whole_boot_image() {
    let size = 0x20_0000;
    let mut ram = GuestRam::new(size).unwrap();
    ram.write_slice(&vec![0xeeu8; size], 0).unwrap();
    let initrd = vec![0x5au8; 0x1234];
    let at = load_initrd(&mut ram, &initrd).unwrap();
    let cmdline = KernelCmdline::new("quiet").unwrap();
    load_cmdline(&mut ram, &cmdline).unwrap();
    let params = boot_params(size, at, initrd.len(), cmdline.len().unwrap());
    write_boot_params(&mut ram, &params).unwrap();
    write_page_tables(&mut ram).unwrap();
    write_gdt(&mut ram).unwrap();
    let all = bytes_of(&ram);
    assert_eq!(all[at..at + initrd.len()], initrd);
    let text = format!("quiet {}\0", DEVICE);
    assert_eq!(all[0x2_0000..0x2_0000 + text.len()], *text.as_bytes());
    assert_eq!(params.hdr.cmdline_size as usize, text.len());
    assert_eq!(all[0x7000..0x8000], params.to_zero_page());
    assert_eq!(word(&all, 0x9000), 0xa003);
    assert_eq!(word(&all, 0xa000), 0xb003);
    assert_eq!(word(&all, 0xbff8), (511 << 21) | 0x83);
    assert_eq!(word(&all, 0x508), 0x00af_9b00_0000_ffff);
    assert_eq!(all[0x4ff], 0xee);
    assert_eq!(all[0x518], 0xee);
    assert_eq!(all[0xc000], 0xee);
}

#[test]
fn a_header_of_any_bytes_is_written_where_memory_goes_on() {
    let mut ram = GuestRam::new(0x1000).unwrap();
    ram.write_boot_header(vec![1, 2, 3], 0xffc).unwrap();
    assert_eq!(bytes_of(&ram)[0xffc..], [1, 2, 3, 0]);
    assert!(matches!(
        ram.write_boot_header(vec![9, 9, 9], 0xffd),
        Err(MemoryError::BootParams(_))
    ));
    assert!(ram.write_boot_header(vec![9], u64::MAX).is_err());
    assert_eq!(bytes_of(&ram)[0xffc..], [1, 2, 3, 0]);
}

#[test]
fn the_parameters_of_a_guest_in_memory() {
    let size = 0x10_0000;
    let mut ram = GuestRam::new(size).unwrap();
    ram.write_slice(&vec![0xeeu8; size], 0).unwrap();
    let params = load_parameters(&mut ram, 0xf_e000, 0x1234, "quiet").unwrap();
    let text = format!("quiet {}\0", DEVICE);
    assert_eq!(params, boot_params(size, 0xf_e000, 0x1234, text.len() - 1));
    let mut expected = vec![0xeeu8; size];
    expected[0x7000..0x8000].copy_from_slice(&params.to_zero_page());
    expected[0x2_0000..0x2_0000 + text.len()].copy_from_slice(text.as_bytes());
    assert!(bytes_of(&ram) == expected);
}

#[test]
fn a_boot_image_below_and_above_a_kernel() {
    let size = 0x20_0000;
    let mut ram = GuestRam::new(size).unwrap();
    let before: Vec<u8> = (0..size).map(|k| (k % 251) as u8).collect();
    ram.write_slice(&before, 0).unwrap();
    let initrd = vec![0x5au8; 0x1234];
    let params = load_boot_image(&mut ram, &initrd, "quiet").unwrap();
    let all = bytes_of(&ram);
    let place = 0x1f_e000;
    assert!(all[0x3_0000..place] == before[0x3_0000..place]);
    assert!(all[place..place + 0x1234] == initrd);
    assert!(all[place + 0x1234..] == before[place + 0x1234..]);
    assert_eq!(all[0x7000..0x8000], params.to_zero_page());

    let field = |at: usize| (word(&all, 0x7000 + at) & 0xffff_ffff) as usize;
    let text = format!("quiet {}\0", DEVICE);
    assert_eq!(all[field(0x228)..field(0x228) + field(0x238)], *text.as_bytes());
    assert_eq!((field(0x218), field(0x21c)), (place, 0x1234));

    assert_eq!(word(&all, 0x9000), 0xa003);
    assert_eq!(word(&all, 0xa000), 0xb003);
    assert_eq!(word(&all, 0xb008), (1 << 21) | 0x83);
    assert_eq!(word(&all, 0x508), 0x00af_9b00_0000_ffff);
}

#[test]
fn a_boot_image_without_a_command_line() {
    let long = "x".repeat(0x1_0000);
    for (args, why) in [
        ("a\tb", InsertError::InvalidAscii),
        (long.as_str(), InsertError::TooLarge),
    ] {
        let mut ram = GuestRam::new(0x10_0000).unwrap();
        match load_boot_image(&mut ram, &[1, 2, 3], args) {
            Err(BootError::Cmdline(e)) => assert_eq!(e, CmdlineError::Insert(why)),
            other => panic!("{:?}", other),
        }
        let all = bytes_of(&ram);
        assert_eq!(all[0xf_f000..0xf_f003], [1, 2, 3]);
        assert_eq!(all.iter().filter(|b| **b != 0).count(), 3);
    }
}

#[test]
fn an_initramfs_right_past_the_command_line() {
    let size = 0x10_0000;
    let text = format!("quiet {}\0", DEVICE);
    for place in [0x2_1000usize, 0x2_0000] {
        let mut ram = GuestRam::new(size).unwrap();
        ram.write_slice(&vec![0xeeu8; size], 0).unwrap();
        let initrd: Vec<u8> = (place..size).map(|k| (k % 251) as u8).collect();
        let params = load_boot_image(&mut ram, &initrd, "quiet").unwrap();
        assert_eq!(params.hdr.ramdisk_image as usize, place);
        assert_eq!(params.hdr.ramdisk_size as usize, initrd.len());

        let mut tables = GuestRam::new(size).unwrap();
        tables.write_slice(&vec![0xeeu8; size], 0).unwrap();
        write_page_tables(&mut tables).unwrap();
        write_gdt(&mut tables).unwrap();
        let mut expected = bytes_of(&tables);
        expected[place..].copy_from_slice(&initrd);
        expected[0x2_0000..0x2_0000 + text.len()].copy_from_slice(text.as_bytes());
        expected[0x7000..0x8000].copy_from_slice(&params.to_zero_page());
        let all = bytes_of(&ram);
        assert!(all == expected);
        assert_eq!(all[place..] == initrd, place > 0x2_0000);
    }
}
