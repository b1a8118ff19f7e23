//! The register values that set the peripheral up as a 7-bit, standard-mode
//! slave, and the checks made on the integrator's settings.
use vstd::prelude::*;

verus! {

/// The highest bus speed supported, in Hz (standard mode).
pub const MAX_SPEED_HZ: u32 = 100_000;

/// The highest 7-bit own address.
pub const MAX_OWN_ADDRESS: u8 = 127;

/// The lowest peripheral bus clock, in MHz, at which standard mode works.
pub const MIN_BUS_CLOCK_MHZ: u8 = 2;

/// Why a configuration was refused.
#[derive(Debug, Clone, Copy, PartialEq, Eq, Structural)]
pub enum ConfigError {
    /// The requested speed is above standard mode.
    FastMode,
    /// The own address does not fit in 7 bits.
    AddressOutOfRange,
    /// The peripheral bus clock is below 2 MHz.
    BusClockTooSlow,
}

/// The values to write into the peripheral's registers.
#[derive(Debug, Clone, Copy, PartialEq, Eq, Structural)]
pub struct SlaveConfig {
    /// CR2.FREQ: the bus clock in whole MHz.
    pub freq: u8,
    /// TRISE: `freq + 1`.
    pub trise: u8,
    /// CCR.CCR: half the bus clock period count of one bus bit.
    pub ccr: u16,
    /// OAR1.ADD: the own address shifted past the read/write bit.
    pub address: u16,
}

/// The bus clock in whole MHz, as the 8-bit FREQ field takes it.
pub open spec fn freq_of(bus_clock_hz: u32) -> u8 {
    ((bus_clock_hz / 1_000_000) % 256) as u8
}

/// Checks the settings, in the order speed, address, bus clock, and computes the
/// register values.
pub fn slave_config(bus_clock_hz: u32, speed_hz: u32, own_address: u8) -> (r: Result<SlaveConfig, ConfigError>)
    requires
        speed_hz > 0,
    ensures
        speed_hz > MAX_SPEED_HZ ==> r == Err::<SlaveConfig, ConfigError>(ConfigError::FastMode),
        speed_hz <= MAX_SPEED_HZ && own_address > MAX_OWN_ADDRESS
            ==> r == Err::<SlaveConfig, ConfigError>(ConfigError::AddressOutOfRange),
        speed_hz <= MAX_SPEED_HZ && own_address <= MAX_OWN_ADDRESS && freq_of(bus_clock_hz) < MIN_BUS_CLOCK_MHZ
            ==> r == Err::<SlaveConfig, ConfigError>(ConfigError::BusClockTooSlow),
        speed_hz <= MAX_SPEED_HZ && own_address <= MAX_OWN_ADDRESS && freq_of(bus_clock_hz) >= MIN_BUS_CLOCK_MHZ
            ==> r == Ok::<SlaveConfig, ConfigError>(SlaveConfig {
                freq: freq_of(bus_clock_hz),
                trise: ((freq_of(bus_clock_hz) + 1) % 256) as u8,
                ccr: ((bus_clock_hz / speed_hz / 2) % 65536) as u16,
                address: (2 * own_address) as u16,
            }),
{
    if speed_hz > MAX_SPEED_HZ {
        return Err(ConfigError::FastMode);
    }
    if own_address > MAX_OWN_ADDRESS {
        return Err(ConfigError::AddressOutOfRange);
    }
    let freq: u8 = ((bus_clock_hz / 1_000_000) % 256) as u8;
    if freq < MIN_BUS_CLOCK_MHZ {
        return Err(ConfigError::BusClockTooSlow);
    }
    let trise: u8 = freq.wrapping_add(1);
    let ccr: u16 = ((bus_clock_hz / speed_hz / 2) % 65536) as u16;
    let address: u16 = 2 * (own_address as u16);
    Ok(SlaveConfig { freq, trise, ccr, address })
}

} // verus!
