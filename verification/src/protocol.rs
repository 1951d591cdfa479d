//! Register map of the PIM447 and the vocabulary of bus transactions.

use vstd::prelude::*;

verus! {

/// Bus address the device answers on.
pub const I2C_ADDR_PRIMARY: u16 = 0x0A;

/// Identifier a genuine device reports.
pub const CHIP_ID: u16 = 0xBA11;

/// Red LED level.
pub const REG_LED_RED: u8 = 0x00;

/// Green LED level.
pub const REG_LED_GRN: u8 = 0x01;

/// Blue LED level.
pub const REG_LED_BLU: u8 = 0x02;

/// White LED level.
pub const REG_LED_WHT: u8 = 0x03;

/// First of the five motion registers: left, right, up, down, switch.
pub const REG_LEFT: u8 = 0x04;

/// Low byte of the two-byte chip identifier.
pub const REG_CHIP_ID_L: u8 = 0xFA;

/// Bit of the switch register that is set while the ball is pressed.
pub const MSK_CLICKED: u8 = 0x80;

/// Bit of the switch register that is set when the press state has changed.
pub const MSK_CLICK_STATE_UPDATE: u8 = 0x01;

/// Number of bytes in one motion sample.
pub const INPUT_BLOCK_LEN: u8 = 5;

/// Number of bytes in the chip identifier.
pub const CHIP_ID_LEN: u8 = 2;

/// One transaction the driver asks the transport to perform.
#[derive(Debug, Clone, Copy, PartialEq, Eq)]
pub enum BusRequest {
    /// Select the device that the following transfers talk to.
    SelectAddress(u16),
    /// Read `length` bytes starting at `register`.
    BlockRead { register: u8, length: u8 },
    /// Write the single byte `value` to `register`.
    BlockWrite { register: u8, value: u8 },
}

/// Whether `address` names a device in seven bits: it fits, and it is none
/// of the addresses from `0x78` on, which are set apart for wider ones.
pub open spec fn is_seven_bit_address(address: u16) -> bool {
    address <= 0x7F && address / 8 != 0b1111
}

/// The layout of the register map: the device's address has seven bits,
/// the four LED registers lie side by side in the order red, green, blue,
/// white, and the motion block follows them without a gap.
pub proof fn lemma_register_map()
    ensures
        is_seven_bit_address(I2C_ADDR_PRIMARY),
        REG_LED_GRN == REG_LED_RED + 1,
        REG_LED_BLU == REG_LED_RED + 2,
        REG_LED_WHT == REG_LED_RED + 3,
        REG_LEFT == REG_LED_WHT + 1,
        REG_LEFT + INPUT_BLOCK_LEN <= REG_CHIP_ID_L,
        REG_CHIP_ID_L + CHIP_ID_LEN <= 256,
{
}

/// The request that sets one LED register to `value`.
pub open spec fn led_write(register: u8, value: u8) -> BusRequest {
    BusRequest::BlockWrite { register, value }
}

} // verus!
