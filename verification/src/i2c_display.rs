//! Character liquid crystal displays attached through an I²C port expander (PCF8574) in 4-bit
//! mode: what is sent to them.

use vstd::prelude::*;

verus! {

/// The three bytes sent to the port expander to transfer a nibble: the nibble on D7 to D4, the
/// backlight bit (bit 3) and the register select bit (bit 0), first with the enable bit (bit 2)
/// low, then high, then low again.
pub open spec fn nibble_frames_spec(nibble: u8, rs: bool, backlight: bool) -> Seq<u8> {
    let first = (nibble << 4u8) | (if backlight { 0x08u8 } else { 0x00u8 }) | (if rs { 0x01u8 } else { 0x00u8 });
    let second = first | 0x04u8;
    let third = second & 0xFBu8;
    seq![first, second, third]
}

/// Common trait for I²C character-based liquid crystal displays consisting of a display
/// controller and a port expander in front of it.
pub trait I2cDisplay {
    /// The I²C address of the port expander.
    spec fn address_spec(&self) -> u8;

    /// Whether the backlight is wanted on.
    spec fn backlight_spec(&self) -> bool;

    /// The I²C address of the port expander.
    fn display_address(&self) -> (ret: u8)
        ensures
            ret == self.address_spec(),
    ;

    /// Whether the user wants the backlight of the display turned on.
    fn wants_backlight(&self) -> (ret: bool)
        ensures
            ret == self.backlight_spec(),
    ;

    /// The seven-bit address targeted on the bus.
    fn target_address(&self) -> (ret: u8)
        ensures
            ret == self.address_spec() & 0x7F,
    {
        self.display_address() & 0b0111_1111
    }

    /// The bytes that transmit a nibble (4 bits) of data (see [nibble_frames_spec]).
    fn nibble_frames(&self, nibble: u8, rs: bool) -> (ret: [u8; 3])
        ensures
            ret@ == nibble_frames_spec(nibble, rs, self.backlight_spec()),
    {
        let backlight_flag: u8 = if self.wants_backlight() { 0b0000_1000 } else { 0b0000_0000 };
        let rs_flag: u8 = if rs { 0b0000_0001 } else { 0b0000_0000 };
        let first = (nibble << 4u8) | backlight_flag | rs_flag;
        let second = first | 0b0000_0100;
        let third = second & 0b1111_1011;
        let ret = [first, second, third];
        assert(ret@ =~= nibble_frames_spec(nibble, rs, self.backlight_spec()));
        ret
    }

    /// The bytes that transmit a byte of data: the upper nibble first, then the lower one.
    fn byte_frames(&self, byte: u8, rs: bool) -> (ret: [u8; 6])
        ensures
            ret@ == nibble_frames_spec(byte >> 4u8, rs, self.backlight_spec()) + nibble_frames_spec(
                byte & 0x0F,
                rs,
                self.backlight_spec(),
            ),
    {
        let upper = self.nibble_frames(byte >> 4u8, rs);
        let lower = self.nibble_frames(byte & 0xF, rs);
        let ret = [upper[0], upper[1], upper[2], lower[0], lower[1], lower[2]];
        assert(ret@ =~= upper@ + lower@);
        ret
    }
}

/// I²C LCD on Two-Wire Interface 0.
pub struct I2cDisplayTwi0 {
    display_address: u8,
    wants_backlight: bool,
}

impl I2cDisplayTwi0 {
    /// A display at the given address, with or without backlight.
    pub fn new(display_address: u8, wants_backlight: bool) -> (ret: Self)
        ensures
            ret.address_spec() == display_address,
            ret.backlight_spec() == wants_backlight,
    {
        I2cDisplayTwi0 { display_address, wants_backlight }
    }
}

impl I2cDisplay for I2cDisplayTwi0 {
    closed spec fn address_spec(&self) -> u8 {
        self.display_address
    }

    closed spec fn backlight_spec(&self) -> bool {
        self.wants_backlight
    }

    fn display_address(&self) -> (ret: u8) {
        self.display_address
    }

    fn wants_backlight(&self) -> (ret: bool) {
        self.wants_backlight
    }
}

/// I²C LCD on Two-Wire Interface 1.
pub struct I2cDisplayTwi1 {
    display_address: u8,
    wants_backlight: bool,
}

impl I2cDisplayTwi1 {
    /// A display at the given address, with or without backlight.
    pub fn new(display_address: u8, wants_backlight: bool) -> (ret: Self)
        ensures
            ret.address_spec() == display_address,
            ret.backlight_spec() == wants_backlight,
    {
        I2cDisplayTwi1 { display_address, wants_backlight }
    }
}

impl I2cDisplay for I2cDisplayTwi1 {
    closed spec fn address_spec(&self) -> u8 {
        self.display_address
    }

    closed spec fn backlight_spec(&self) -> bool {
        self.wants_backlight
    }

    fn display_address(&self) -> (ret: u8) {
        self.display_address
    }

    fn wants_backlight(&self) -> (ret: bool) {
        self.wants_backlight
    }
}

} // verus!
