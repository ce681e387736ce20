use microvmm::exits::blk_offset;
use microvmm::exits::handle_exit;
use microvmm::exits::serial_offset;
use microvmm::exits::Action;
use microvmm::exits::Exit;
use microvmm::virtio::VirtioBlk;

#[test]
fn serial_ports() {
    assert_eq!(serial_offset(0x3f7), None);
    assert_eq!(serial_offset(0x3f8), Some(0));
    assert_eq!(serial_offset(0x3ff), Some(7));
    assert_eq!(serial_offset(0x400), None);
    assert_eq!(serial_offset(0), None);
    assert_eq!(serial_offset(u16::MAX), None);
}

#[test]
fn device_window() {
    assert_eq!(blk_offset(0xcfff_ffff), None);
    assert_eq!(blk_offset(0xd000_0000), Some(0));
    assert_eq!(blk_offset(0xd000_0fff), Some(0xfff));
    assert_eq!(blk_offset(0xd000_1000), None);
    assert_eq!(blk_offset(u64::MAX), None);
}

#[test]
fn port_output_goes_to_the_serial_line() {
    let mut dev = VirtioBlk::new(0);
    let before = dev;
    assert_eq!(
        handle_exit(&mut dev, Exit::IoOut(0x3f8, b"xy")),
        Action::SerialWrite { offset: 0, value: b'x' }
    );
    assert_eq!(
        handle_exit(&mut dev, Exit::IoOut(0x3fb, &[0x80])),
        Action::SerialWrite { offset: 3, value: 0x80 }
    );
    assert_eq!(handle_exit(&mut dev, Exit::IoOut(0x80, &[1])), Action::Resume);
    assert_eq!(handle_exit(&mut dev, Exit::IoOut(0x80, &[])), Action::Resume);
    assert_eq!(dev, before);
}

#[test]
fn port_input_comes_from_the_serial_line() {
    let mut dev = VirtioBlk::new(0);
    assert_eq!(handle_exit(&mut dev, Exit::IoIn(0x3fd)), Action::SerialRead { offset: 5 });
    assert_eq!(handle_exit(&mut dev, Exit::IoIn(0x64)), Action::Resume);
}

#[test]
fn device_reads_are_answered() {
    let mut dev = VirtioBlk::new(0);
    let before = dev;
    assert_eq!(
        handle_exit(&mut dev, Exit::MmioRead(0xd000_0000, 4)),
        Action::Reply(b"virt".to_vec())
    );
    assert_eq!(
        handle_exit(&mut dev, Exit::MmioRead(0xd000_0034, 8)),
        Action::Reply(vec![0, 1, 0, 0, 0, 0, 0, 0])
    );
    assert_eq!(handle_exit(&mut dev, Exit::MmioRead(0xd000_1000, 4)), Action::Resume);
    assert_eq!(dev, before);
}

#[test]
fn device_writes_are_taken() {
    let mut dev = VirtioBlk::new(0);
    assert_eq!(
        handle_exit(&mut dev, Exit::MmioWrite(0xd000_0070, &[3, 0, 0, 0])),
        Action::Resume
    );
    assert_eq!(dev.status, 3);
    assert_eq!(
        handle_exit(&mut dev, Exit::MmioWrite(0xd000_0050, &[2, 0, 0, 0])),
        Action::Kick { queue: 2 }
    );
    let before = dev;
    assert_eq!(
        handle_exit(&mut dev, Exit::MmioWrite(0xe000_0070, &[9, 0, 0, 0])),
        Action::Resume
    );
    assert_eq!(dev, before);
}

#[test]
fn the_guest_stops_on_halt_and_shutdown_alone() {
    let mut dev = VirtioBlk::new(0);
    assert_eq!(handle_exit(&mut dev, Exit::Hlt), Action::StopHalted);
    assert_eq!(handle_exit(&mut dev, Exit::Shutdown), Action::StopShutdown);
    assert_eq!(handle_exit(&mut dev, Exit::Other), Action::ReportUnhandled);
}
