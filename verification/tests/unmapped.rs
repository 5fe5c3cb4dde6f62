//! The unmapped fallback device.

use gameboy_core::unmapped::Unmapped;

#[test]
fn new_works() {
    let unmap = Unmapped::new();
    assert!((0x000..0x100u16).map(|addr| unmap.read(addr)).all(|byte| byte == 0xff));
}

#[test]
fn device_read_works() {
    let unmap = Unmapped::new();
    assert!((0x000..0x100u16).map(|addr| unmap.read(addr)).all(|byte| byte == 0xff));
}

#[test]
fn device_write_works() {
    let mut unmap = Unmapped::new();
    (0x000..0x100u16).for_each(|addr| unmap.write(addr, 0xaa));
    assert!((0x000..0x100u16).map(|addr| unmap.read(addr)).all(|byte| byte == 0xff));
}
