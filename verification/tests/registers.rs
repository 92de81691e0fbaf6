use pcal6416a::ll::{
    value_from_bytes, value_to_bytes, Interface, Register, MAX_TRANSACTION_SIZE, REGISTER_SIZE,
};
use pcal6416a::Address;

#[test]
fn address_bytes() {
    assert_eq!(Address::Default0.addr(), 0x20);
    assert_eq!(Address::Alternative1.addr(), 0x21);
}

#[test]
fn interface_gives_back_its_bus() {
    let iface = Interface::new(vec![1u8, 2, 3], Address::Alternative1);
    assert_eq!(iface.i2c_address(), 0x21);
    assert_eq!(iface.take(), vec![1u8, 2, 3]);
}

#[test]
fn interface_address_default() {
    let iface = Interface::new(7u32, Address::Default0);
    assert_eq!(iface.i2c_address(), 0x20);
    assert_eq!(iface.take(), 7u32);
}

#[test]
fn write_frame_puts_command_first() {
    let frame = Interface::<()>::write_register_frame(0x46, &[0xab, 0xcd]);
    assert_eq!(frame, vec![0x46, 0xab, 0xcd]);
}

#[test]
fn write_frame_largest() {
    let data = [1u8, 2, 3, 4];
    assert_eq!(data.len() + 1, MAX_TRANSACTION_SIZE);
    let frame = Interface::<()>::write_register_frame(0x02, &data);
    assert_eq!(frame, vec![0x02, 1, 2, 3, 4]);
}

#[test]
fn write_frame_without_data() {
    let frame = Interface::<()>::write_register_frame(0x4c, &[]);
    assert_eq!(frame, vec![0x4c]);
}

#[test]
fn read_command_is_the_register_address() {
    assert_eq!(Interface::<()>::read_register_command(0x4a), [0x4a]);
}

#[test]
fn register_addresses() {
    assert_eq!(Register::Input.address(), 0x00);
    assert_eq!(Register::Output.address(), 0x02);
    assert_eq!(Register::Configuration.address(), 0x06);
    assert_eq!(Register::InputLatch.address(), 0x44);
    assert_eq!(Register::PullUpDownEnable.address(), 0x46);
    assert_eq!(Register::PullUpDownSelection.address(), 0x48);
    assert_eq!(Register::InterruptMask.address(), 0x4a);
    assert_eq!(Register::InterruptStatus.address(), 0x4c);
}

#[test]
fn register_value_is_big_endian() {
    assert_eq!(value_from_bytes([0x12, 0x34]), 0x1234);
    assert_eq!(value_from_bytes([0xff, 0x00]), 0xff00);
    assert_eq!(value_to_bytes(0xabcd), [0xab, 0xcd]);
    assert_eq!(value_to_bytes(0x0001), [0x00, 0x01]);
    assert_eq!(REGISTER_SIZE, 2);
}

#[test]
fn register_encoding_round_trip() {
    for v in [0u16, 1, 0x8000, 0x00ff, 0xff00, 0xa5c3, 0xffff] {
        assert_eq!(value_from_bytes(value_to_bytes(v)), v);
    }
    for b in [[0u8, 0u8], [1, 2], [0xfe, 0x7f], [0xff, 0xff]] {
        assert_eq!(value_to_bytes(value_from_bytes(b)), b);
    }
}
