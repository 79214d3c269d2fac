use tc72::{
    control_byte, quarter_degrees, raw_from_bytes, read_frame, write_frame, Frame, Registers,
    EXPECTED_ID,
};

#[test]
fn register_addresses() {
    assert_eq!(Registers::Control.address(), 0);
    assert_eq!(Registers::Lsb.address(), 1);
    assert_eq!(Registers::Msb.address(), 2);
    assert_eq!(Registers::ManufacturerId.address(), 3);
    assert_eq!(EXPECTED_ID, 0x54);
}

#[test]
fn read_frames_of_all_registers() {
    assert_eq!(read_frame(Registers::Control), Frame { address: 0x00, data: 0 });
    assert_eq!(read_frame(Registers::Lsb), Frame { address: 0x02, data: 0 });
    assert_eq!(read_frame(Registers::Msb), Frame { address: 0x04, data: 0 });
    assert_eq!(read_frame(Registers::ManufacturerId), Frame { address: 0x06, data: 0 });
}

#[test]
fn write_frames_of_all_registers() {
    for v in 0..=255u8 {
        assert_eq!(write_frame(Registers::Control, v), Frame { address: 0x08, data: v });
        assert_eq!(write_frame(Registers::Lsb, v), Frame { address: 0x0a, data: v });
        assert_eq!(write_frame(Registers::Msb, v), Frame { address: 0x0c, data: v });
        assert_eq!(write_frame(Registers::ManufacturerId, v), Frame { address: 0x0e, data: v });
    }
}

#[test]
fn frame_bytes_in_bus_order() {
    assert_eq!(write_frame(Registers::Control, 0x11).bytes(), [0x08, 0x11]);
    assert_eq!(read_frame(Registers::Msb).bytes(), [0x04, 0x00]);
}

#[test]
fn control_byte_encoding() {
    assert_eq!(control_byte(false, false), 0x00);
    assert_eq!(control_byte(true, false), 0x01);
    assert_eq!(control_byte(false, true), 0x10);
    assert_eq!(control_byte(true, true), 0x11);
}

#[test]
fn raw_assembly() {
    assert_eq!(raw_from_bytes(0x00, 0x00), 0);
    assert_eq!(raw_from_bytes(0x64, 0x00), 0x190);
    assert_eq!(raw_from_bytes(0xff, 0xc0), 0x3ff);
    assert_eq!(raw_from_bytes(0x80, 0x3f), 0x200);
    assert_eq!(raw_from_bytes(0x12, 0x40), 0x49);
}

#[test]
fn nonnegative_readings() {
    assert_eq!(quarter_degrees(0x000), 0);
    assert_eq!(quarter_degrees(0x190), 400);
    assert_eq!(quarter_degrees(0x1ff), 511);
    assert_eq!(quarter_degrees(0x190) as f32 * 0.25, 100.0);
    for raw in 0..512u16 {
        assert_eq!(quarter_degrees(raw) as i32, raw as i32);
    }
}

#[test]
fn negative_readings() {
    assert_eq!(quarter_degrees(0x3ff), -1);
    assert_eq!(quarter_degrees(0x200), -512);
    assert_eq!(quarter_degrees(0x3ff) as f32 * 0.25, -0.25);
    assert_eq!(quarter_degrees(0x200) as f32 * 0.25, -128.0);
    for raw in 512..1024u16 {
        assert_eq!(quarter_degrees(raw) as i32, raw as i32 - 1024);
    }
}
