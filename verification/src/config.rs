use vstd::prelude::*;
use vstd::string::*;

verus! {

/// Settings of the SSD1306 display and of the screen refresh.
#[derive(Debug)]
pub struct DisplayConfig {
    pub spi_device: String,
    pub dc_pin: u8,
    pub rst_pin: u8,
    pub update_interval_ms: u64,
}

/// Settings of the rotary encoder.
///
/// `volume_step_bits` is the IEEE-754 bit pattern of the `f64` volume step
/// (a fraction of full volume); the library only carries it.
#[derive(Debug)]
pub struct RotaryConfig {
    pub clk_pin: u8,
    pub dt_pin: u8,
    pub sw_pin: u8,
    pub volume_step_bits: u64,
}

/// Settings of the MPRIS connection.
#[derive(Debug)]
pub struct MprisConfig {
    pub reconnect_interval_ms: u64,
}

/// The whole application configuration.
#[derive(Debug)]
pub struct Config {
    pub display: DisplayConfig,
    pub rotary: RotaryConfig,
    pub mpris: MprisConfig,
}

/// Bit pattern of the `f64` value `0.05`, the default volume step.
pub const DEFAULT_VOLUME_STEP_BITS: u64 = 0x3FA9_9999_9999_999A;

/// The default SPI device path.
pub open spec fn spec_default_spi_device() -> Seq<char> {
    "/dev/spidev0.0"@
}

pub fn default_spi_device() -> (s: String)
    ensures
        s@ == spec_default_spi_device(),
{
    String::from_str("/dev/spidev0.0")
}

pub fn default_dc_pin() -> (p: u8)
    ensures
        p == 24,
{
    24
}

pub fn default_rst_pin() -> (p: u8)
    ensures
        p == 25,
{
    25
}

pub fn default_update_interval() -> (ms: u64)
    ensures
        ms == 500,
{
    500
}

pub fn default_clk_pin() -> (p: u8)
    ensures
        p == 17,
{
    17
}

pub fn default_dt_pin() -> (p: u8)
    ensures
        p == 27,
{
    27
}

pub fn default_sw_pin() -> (p: u8)
    ensures
        p == 22,
{
    22
}

pub fn default_reconnect_interval() -> (ms: u64)
    ensures
        ms == 5000,
{
    5000
}

impl Config {
    /// Whether every setting holds its default value.
    pub open spec fn is_default(&self) -> bool {
        &&& self.display.spi_device@ == spec_default_spi_device()
        &&& self.display.dc_pin == 24
        &&& self.display.rst_pin == 25
        &&& self.display.update_interval_ms == 500
        &&& self.rotary.clk_pin == 17
        &&& self.rotary.dt_pin == 27
        &&& self.rotary.sw_pin == 22
        &&& self.rotary.volume_step_bits == DEFAULT_VOLUME_STEP_BITS
        &&& self.mpris.reconnect_interval_ms == 5000
    }
}

impl Default for Config {
    fn default() -> (c: Self)
        ensures
            c.is_default(),
    {
        Config {
            display: DisplayConfig {
                spi_device: default_spi_device(),
                dc_pin: default_dc_pin(),
                rst_pin: default_rst_pin(),
                update_interval_ms: default_update_interval(),
            },
            rotary: RotaryConfig {
                clk_pin: default_clk_pin(),
                dt_pin: default_dt_pin(),
                sw_pin: default_sw_pin(),
                volume_step_bits: DEFAULT_VOLUME_STEP_BITS,
            },
            mpris: MprisConfig { reconnect_interval_ms: default_reconnect_interval() },
        }
    }
}

} // verus!
