use vstd::prelude::*;

verus! {

/// The four registers of the sensor.
#[derive(Clone, Copy, Debug, PartialEq, Eq, Structural)]
pub enum Registers {
    Control,
    Lsb,
    Msb,
    ManufacturerId,
}

/// The byte that the manufacturer identity register of a genuine part holds.
pub const EXPECTED_ID: u8 = 0x54;

/// Bit that marks a frame as a register write.
pub const WRITE_BIT: u8 = 0x08;

impl Registers {
    /// The 2-bit address of the register.
    pub open spec fn spec_address(self) -> u8 {
        match self {
            Registers::Control => 0,
            Registers::Lsb => 1,
            Registers::Msb => 2,
            Registers::ManufacturerId => 3,
        }
    }

    pub fn address(self) -> (r: u8)
        ensures
            r == self.spec_address(),
            r < 4,
    {
        match self {
            Registers::Control => 0,
            Registers::Lsb => 1,
            Registers::Msb => 2,
            Registers::ManufacturerId => 3,
        }
    }
}

/// The address byte of a read: the address shifted left by one, bit 0 clear.
pub open spec fn read_address_byte(reg: Registers) -> u8 {
    (reg.spec_address() * 2) as u8
}

/// The address byte of a write: the shifted address with the write bit set.
pub open spec fn write_address_byte(reg: Registers) -> u8 {
    (reg.spec_address() * 2 + 8) as u8
}

/// The control byte: bit 0 is the shutdown flag, bit 4 the one-shot flag.
pub open spec fn spec_control_byte(shutdown: bool, one_shot: bool) -> u8 {
    ((if one_shot { 16int } else { 0int }) + (if shutdown { 1int } else { 0int })) as u8
}

/// The 10-bit raw reading: all eight bits of Msb above the two top bits of Lsb.
pub open spec fn spec_raw(msb: u8, lsb: u8) -> u16 {
    (msb as int * 4 + lsb as int / 64) as u16
}

/// The reading in quarter degrees: the 10-bit field read as two's complement.
pub open spec fn spec_quarter_degrees(raw: u16) -> i16 {
    if raw < 512 {
        raw as i16
    } else {
        (raw as int - 1024) as i16
    }
}

/// A two-byte bus frame: an address byte, then a data byte.
#[derive(Clone, Copy, Debug, PartialEq, Eq, Structural)]
pub struct Frame {
    pub address: u8,
    pub data: u8,
}

impl Frame {
    /// The frame's bytes in the order they go on the bus.
    pub fn bytes(self) -> (r: [u8; 2])
        ensures
            r@ == seq![self.address, self.data],
    {
        let r = [self.address, self.data];
        assert(r@ =~= seq![self.address, self.data]);
        r
    }
}

/// The frame that reads `reg`: its address byte and a placeholder.
pub open spec fn spec_read_frame(reg: Registers) -> Frame {
    Frame { address: read_address_byte(reg), data: 0 }
}

/// The frame that writes `value` to `reg`.
pub open spec fn spec_write_frame(reg: Registers, value: u8) -> Frame {
    Frame { address: write_address_byte(reg), data: value }
}

/// The frame sent to read `reg`.
pub fn read_frame(reg: Registers) -> (r: Frame)
    ensures
        r == spec_read_frame(reg),
        r.address as int == reg.spec_address() * 2,
        r.address & 1 == 0,
        r.data == 0,
{
    let a = reg.address();
    assert(a < 4u8 ==> a << 1u8 == a * 2 && (a << 1u8) & 1u8 == 0) by (bit_vector);
    Frame { address: a << 1, data: 0 }
}

/// The frame sent to write `value` to `reg`.
pub fn write_frame(reg: Registers, value: u8) -> (r: Frame)
    ensures
        r == spec_write_frame(reg, value),
        r.address as int == reg.spec_address() * 2 + 8,
        r.data == value,
{
    let a = reg.address();
    assert(a < 4u8 ==> (a << 1u8) | 8u8 == a * 2 + 8) by (bit_vector);
    Frame { address: (a << 1) | WRITE_BIT, data: value }
}

/// Packs the shutdown and one-shot flags into the control register's byte.
pub fn control_byte(shutdown: bool, one_shot: bool) -> (r: u8)
    ensures
        r == spec_control_byte(shutdown, one_shot),
        !shutdown && !one_shot ==> r == 0x00,
        shutdown && !one_shot ==> r == 0x01,
        !shutdown && one_shot ==> r == 0x10,
        shutdown && one_shot ==> r == 0x11,
{
    let high: u8 = if one_shot { 1 } else { 0 };
    let low: u8 = if shutdown { 1 } else { 0 };
    assert(high << 4u8 == high * 16) by (bit_vector)
        requires
            high <= 1,
    ;
    (high << 4) + low
}

/// Assembles the 10-bit raw reading from the two temperature registers.
pub fn raw_from_bytes(msb: u8, lsb: u8) -> (r: u16)
    ensures
        r == spec_raw(msb, lsb),
        r < 1024,
{
    let high = (msb as u16) << 2;
    let low = (lsb as u16) >> 6;
    assert(((msb as u16) << 2) | ((lsb as u16) >> 6) == (msb as u16) * 4 + (lsb as u16) / 64)
        by (bit_vector);
    high | low
}

/// The raw reading in quarter degrees Celsius.
///
/// Bit 9 is the sign of the 10-bit field: a reading with it set stands for
/// `raw - 1024`.
pub fn quarter_degrees(raw: u16) -> (r: i16)
    requires
        raw < 1024,
    ensures
        r == spec_quarter_degrees(raw),
        raw < 512 ==> r as int == raw as int,
        raw >= 512 ==> r as int == raw as int - 1024,
{
    let sign: u16 = 0x200;
    let v = raw as i16;
    if raw & sign != 0 {
        assert(raw & 512u16 != 0 ==> raw >= 512u16) by (bit_vector);
        v - 1024
    } else {
        assert(raw < 1024u16 && raw & 512u16 == 0 ==> raw < 512u16) by (bit_vector);
        v
    }
}

} // verus!
