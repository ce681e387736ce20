use microvmm::virtio::VirtioBlk;
use microvmm::virtio::VIRTIO_F_VERSION_1;
use microvmm::virtio::VIRTIO_MMIO_CONFIG;
use microvmm::virtio::VIRTIO_MMIO_CONFIG_HIGH;
use microvmm::virtio::VIRTIO_MMIO_DEVICE_FEATURES;
use microvmm::virtio::VIRTIO_MMIO_DEVICE_FEATURES_SEL;
use microvmm::virtio::VIRTIO_MMIO_DRIVER_FEATURES;
use microvmm::virtio::VIRTIO_MMIO_DRIVER_FEATURES_SEL;
use microvmm::virtio::VIRTIO_MMIO_INTERRUPT_ACK;
use microvmm::virtio::VIRTIO_MMIO_INTERRUPT_STATUS;
use microvmm::virtio::VIRTIO_MMIO_QUEUE_NOTIFY;
use microvmm::virtio::VIRTIO_MMIO_QUEUE_NUM;
use microvmm::virtio::VIRTIO_MMIO_QUEUE_READY;
use microvmm::virtio::VIRTIO_MMIO_QUEUE_SEL;
use microvmm::virtio::VIRTIO_MMIO_STATUS;

fn read32(dev: &VirtioBlk, offset: u64) -> u32 {
    let mut b = [0xaau8; 4];
    dev.read(offset, &mut b);
    u32::from_le_bytes(b)
}

fn write32(dev: &mut VirtioBlk, offset: u64, val: u32) -> Option<u32> {
    dev.write(offset, &val.to_le_bytes())
}

#[test]
fn a_new_device_is_at_power_on() {
    let dev = VirtioBlk::new(10 * 512 + 511);
    assert_eq!(
        dev,
        VirtioBlk {
            capacity_sectors: 10,
            status: 0,
            device_features_sel: 0,
            driver_features_sel: 0,
            driver_features: 0,
            queue_sel: 0,
            queue_num: 0,
            queue_ready: 0,
            queue_desc: 0,
            queue_avail: 0,
            queue_used: 0,
            interrupt_status: 0,
        }
    );
    assert_eq!(VirtioBlk::new(511).capacity_sectors, 0);
    assert_eq!(VirtioBlk::new(u64::MAX).capacity_sectors, u64::MAX / 512);
}

#[test]
fn identification_registers() {
    let dev = VirtioBlk::new(0);
    let mut magic = [0u8; 4];
    dev.read(0x000, &mut magic);
    assert_eq!(&magic, b"virt");
    assert_eq!(read32(&dev, 0x004), 2);
    assert_eq!(read32(&dev, 0x008), 2);
    assert_eq!(read32(&dev, 0x00c), 0x1234_5678);
    assert_eq!(read32(&dev, 0x034), 256);
    assert_eq!(read32(&dev, 0x0fc), 0);
    assert_eq!(read32(&dev, 0x002), 0);
    assert_eq!(read32(&dev, u64::MAX), 0);
}

#[test]
fn reads_of_other_widths() {
    let dev = VirtioBlk::new(0);
    let mut one = [0xffu8; 1];
    dev.read(0x00c, &mut one);
    assert_eq!(one, [0x78]);
    let mut two = [0xffu8; 2];
    dev.read(0x00c, &mut two);
    assert_eq!(two, [0x78, 0x56]);
    let mut eight = [0xffu8; 8];
    dev.read(0x00c, &mut eight);
    assert_eq!(eight, [0x78, 0x56, 0x34, 0x12, 0, 0, 0, 0]);
    let mut none: [u8; 0] = [];
    dev.read(0x00c, &mut none);
}

#[test]
fn capacity_is_read_in_two_words() {
    let dev = VirtioBlk::new(0x1_2345_6789_abcd_u64 * 512);
    assert_eq!(read32(&dev, VIRTIO_MMIO_CONFIG), 0x6789_abcd);
    assert_eq!(read32(&dev, VIRTIO_MMIO_CONFIG_HIGH), 0x1_2345);
}

#[test]
fn features_are_offered_by_words() {
    let mut dev = VirtioBlk::new(0);
    assert_eq!(dev.device_features(), 1 << 32);
    assert_eq!(VIRTIO_F_VERSION_1, 1 << 32);
    assert_eq!(read32(&dev, VIRTIO_MMIO_DEVICE_FEATURES), 0);
    write32(&mut dev, VIRTIO_MMIO_DEVICE_FEATURES_SEL, 1);
    assert_eq!(read32(&dev, VIRTIO_MMIO_DEVICE_FEATURES), 1);
    write32(&mut dev, VIRTIO_MMIO_DEVICE_FEATURES_SEL, 7);
    assert_eq!(read32(&dev, VIRTIO_MMIO_DEVICE_FEATURES), 1);
    write32(&mut dev, VIRTIO_MMIO_DEVICE_FEATURES_SEL, 0);
    assert_eq!(read32(&dev, VIRTIO_MMIO_DEVICE_FEATURES), 0);
}

#[test]
fn accepted_features_accumulate() {
    let mut dev = VirtioBlk::new(0);
    write32(&mut dev, VIRTIO_MMIO_DRIVER_FEATURES, 0x5);
    write32(&mut dev, VIRTIO_MMIO_DRIVER_FEATURES_SEL, 1);
    write32(&mut dev, VIRTIO_MMIO_DRIVER_FEATURES, 0x1);
    assert_eq!(dev.driver_features, 0x1_0000_0005);
    write32(&mut dev, VIRTIO_MMIO_DRIVER_FEATURES, 0x8000_0000);
    assert_eq!(dev.driver_features, 0x8000_0001_0000_0005);
    write32(&mut dev, VIRTIO_MMIO_DRIVER_FEATURES_SEL, 0);
    write32(&mut dev, VIRTIO_MMIO_DRIVER_FEATURES, 0x2);
    assert_eq!(dev.driver_features, 0x8000_0001_0000_0007);
    assert_eq!(dev.driver_features_sel, 0);
}

#[test]
fn queue_addresses_in_either_order() {
    for base in [0x080u64, 0x090, 0x0a0] {
        let mut one = VirtioBlk::new(0);
        write32(&mut one, base, 0x89ab_cdef);
        write32(&mut one, base + 4, 0x0123_4567);
        let mut other = VirtioBlk::new(0);
        write32(&mut other, base + 4, 0x0123_4567);
        write32(&mut other, base, 0x89ab_cdef);
        assert_eq!(one, other);
        let regs = [one.queue_desc, one.queue_avail, one.queue_used];
        let at = ((base - 0x080) / 0x10) as usize;
        for (i, reg) in regs.iter().enumerate() {
            assert_eq!(*reg, if i == at { 0x0123_4567_89ab_cdef } else { 0 });
        }
        write32(&mut one, base, 0);
        let regs = [one.queue_desc, one.queue_avail, one.queue_used];
        assert_eq!(regs[at], 0x0123_4567_0000_0000);
    }
}

#[test]
fn queue_configuration() {
    let mut dev = VirtioBlk::new(0);
    write32(&mut dev, VIRTIO_MMIO_QUEUE_SEL, 3);
    write32(&mut dev, VIRTIO_MMIO_QUEUE_NUM, 128);
    write32(&mut dev, VIRTIO_MMIO_QUEUE_READY, 1);
    assert_eq!(dev.queue_sel, 3);
    assert_eq!(dev.queue_num, 128);
    assert_eq!(read32(&dev, VIRTIO_MMIO_QUEUE_READY), 1);
    assert_eq!(read32(&dev, VIRTIO_MMIO_QUEUE_SEL), 0);
    assert_eq!(read32(&dev, VIRTIO_MMIO_QUEUE_NUM), 0);
}

#[test]
fn status_reads_back() {
    let mut dev = VirtioBlk::new(0);
    write32(&mut dev, VIRTIO_MMIO_STATUS, 0xf);
    assert_eq!(read32(&dev, VIRTIO_MMIO_STATUS), 0xf);
    write32(&mut dev, VIRTIO_MMIO_STATUS, 0);
    assert_eq!(read32(&dev, VIRTIO_MMIO_STATUS), 0);
}

#[test]
fn acknowledging_clears_exactly() {
    let mut dev = VirtioBlk::new(0);
    dev.interrupt_status = 0b1011;
    write32(&mut dev, VIRTIO_MMIO_INTERRUPT_ACK, 0b0110);
    assert_eq!(read32(&dev, VIRTIO_MMIO_INTERRUPT_STATUS), 0b1001);
    write32(&mut dev, VIRTIO_MMIO_INTERRUPT_ACK, 0b1001);
    assert_eq!(read32(&dev, VIRTIO_MMIO_INTERRUPT_STATUS), 0);
}

#[test]
fn a_notification_is_handed_on_and_changes_nothing() {
    let mut dev = VirtioBlk::new(4096);
    let before = dev;
    assert_eq!(write32(&mut dev, VIRTIO_MMIO_QUEUE_NOTIFY, 7), Some(7));
    assert_eq!(dev, before);
    assert_eq!(write32(&mut dev, VIRTIO_MMIO_STATUS, 7), None);
}

#[test]
fn read_only_and_unknown_registers_take_no_write() {
    let before = VirtioBlk::new(4096);
    for offset in [
        0x000u64, 0x004, 0x008, 0x00c, 0x010, 0x034, 0x060, 0x0a8, 0x100, 0x104, 0x071, 0xfff,
        u64::MAX,
    ] {
        let mut dev = before;
        assert_eq!(write32(&mut dev, offset, 0xffff_ffff), None);
        assert_eq!(dev, before);
    }
}

#[test]
fn the_order_of_writes_does_not_matter() {
    let offsets = [
        0x000u64, 0x014, 0x020, 0x030, 0x038, 0x044, 0x050, 0x064, 0x070, 0x080, 0x084, 0x090,
        0x094, 0x0a0, 0x0a4, 0x100,
    ];
    let mut start = VirtioBlk::new(4096);
    start.interrupt_status = 0xff;
    start.queue_used = 0x1111_2222_3333_4444;
    for a in offsets {
        for b in offsets {
            if a != b {
                let mut one = start;
                write32(&mut one, a, 0x89ab_cdef);
                write32(&mut one, b, 0x7654_3210);
                let mut other = start;
                write32(&mut other, b, 0x7654_3210);
                write32(&mut other, a, 0x89ab_cdef);
                assert_eq!(one, other);
            }
        }
    }
}

#[test]
fn writes_of_other_widths() {
    let mut dev = VirtioBlk::new(0);
    dev.write(VIRTIO_MMIO_STATUS, &[0x11]);
    assert_eq!(dev.status, 0x11);
    dev.write(VIRTIO_MMIO_STATUS, &[0x11, 0x22, 0x33]);
    assert_eq!(dev.status, 0x33_2211);
    dev.write(VIRTIO_MMIO_STATUS, &[1, 2, 3, 4, 5, 6, 7, 8]);
    assert_eq!(dev.status, 0x0403_0201);
    dev.write(VIRTIO_MMIO_STATUS, &[]);
    assert_eq!(dev.status, 0);
}
