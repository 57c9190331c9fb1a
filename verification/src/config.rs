use vstd::prelude::*;

verus! {

/// The I2C address of a DS3502.
///
/// The DS3502 has address pins A1 and A0, natively supporting up to four
/// DS3502s on the same I2C bus.
#[derive(Debug, Copy, Clone, Hash, Eq, PartialEq)]
pub enum I2cAddr {
    /// Default I2C address, both address pins low (0x28).
    Default,
    /// I2C address with the address 0 pin high (0x29).
    Address0,
    /// I2C address with the address 1 pin high (0x2a).
    Address1,
    /// I2C address with both address pins high (0x2b).
    Address01,
}

impl I2cAddr {
    /// The seven-bit bus address this variant selects.
    pub open spec fn spec_byte(self) -> u8 {
        match self {
            I2cAddr::Default => 0x28,
            I2cAddr::Address0 => 0x29,
            I2cAddr::Address1 => 0x2a,
            I2cAddr::Address01 => 0x2b,
        }
    }

    /// The seven-bit bus address this variant selects.
    pub fn byte(self) -> (r: u8)
        ensures
            r == self.spec_byte(),
    {
        match self {
            I2cAddr::Default => 0x28,
            I2cAddr::Address0 => 0x29,
            I2cAddr::Address1 => 0x2a,
            I2cAddr::Address01 => 0x2b,
        }
    }
}

/// Controls whether writes to the wiper register (WR) are also committed to
/// the initial value register (IVR) in EEPROM.
#[derive(Debug, Clone, Copy, Hash, PartialEq, Eq)]
pub enum ControlRegisterMode {
    /// Writes go to WR and IVR: the value becomes the power-on default.
    WiperAndInitialValue,
    /// Writes go to WR only: the value is lost on power cycle.
    WiperOnly,
}

impl ControlRegisterMode {
    /// The one-byte control-register encoding of this mode.
    pub open spec fn spec_byte(self) -> u8 {
        match self {
            ControlRegisterMode::WiperAndInitialValue => 0x00,
            ControlRegisterMode::WiperOnly => 0x80,
        }
    }

    /// The one-byte control-register encoding of this mode.
    pub fn byte(self) -> (r: u8)
        ensures
            r == self.spec_byte(),
    {
        match self {
            ControlRegisterMode::WiperAndInitialValue => 0x00,
            ControlRegisterMode::WiperOnly => 0x80,
        }
    }
}

/// Configuration of the DS3502 for set-up.
///
/// The device itself powers up with the control register in the mode that
/// saves every wiper write to EEPROM. The EEPROM has a limited number of
/// write cycles, so the default configuration instead initializes the driver
/// with writes to the wiper register only; to restore the device's factory
/// behavior set `mode` to [`ControlRegisterMode::WiperAndInitialValue`].
#[derive(Debug, Clone, Copy, Hash, Eq, PartialEq)]
pub struct Config {
    /// The bus address; 0x28 unless address pins are strapped.
    pub i2c_addr: I2cAddr,
    /// The control-register mode the driver sets on initialization.
    pub mode: ControlRegisterMode,
}

impl Default for Config {
    /// The default address, with EEPROM saves disabled.
    fn default() -> (r: Self)
        ensures
            r.i2c_addr == I2cAddr::Default,
            r.mode == ControlRegisterMode::WiperOnly,
    {
        Config { i2c_addr: I2cAddr::Default, mode: ControlRegisterMode::WiperOnly }
    }
}

} // verus!
