//! The clock-tree configuration model, the frequencies it derives, and the
//! policies that extend it for USB and the serial peripherals.
use vstd::prelude::*;

use crate::pll::{
    calculate_spec, cco_in_band, solvable, is_first_divider, least_post_divider, is_post_divider, lemma_solution_exact, reachable_with_divider,
    solution, PllClkSrc, PllConfig, CCO_MAX_KHZ, CCO_MIN_KHZ, PLL_M_MAX,
};

verus! {

/// Frequency of the internal RC oscillator, in kHz.
pub const IRC_KHZ: u32 = 12_000;

/// Frequency that full-speed USB needs, in kHz.
pub const USB_FS_KHZ: u32 = 48_000;

/// Largest value of an 8-bit clock divider register.
pub const DIVIDER_MAX: u32 = 255;

/// Source of the main clock.
#[derive(Clone, Copy, Debug, PartialEq, Eq, Structural)]
pub enum MainClkSrc {
    /// Internal RC oscillator.
    Irc,
    /// Crystal oscillator, which is also the PLL input.
    SysOsc,
    /// Watchdog oscillator.
    WdOsc,
    /// Output of the system PLL.
    SysPll,
}

/// Source of the USB clock.
#[derive(Clone, Copy, Debug, PartialEq, Eq, Structural)]
pub enum UsbClkSrc {
    /// The main clock.
    MainClk,
    /// Output of the USB PLL.
    UsbPll,
}

/// Whether the internal RC oscillator runs.
#[derive(Clone, Copy, Debug, PartialEq, Eq, Structural)]
pub enum IrcConfig {
    Disabled,
    Enabled,
}

/// Settings of the crystal oscillator.
#[derive(Clone, Copy, Debug, PartialEq, Eq, Structural)]
pub struct SysoscConfig {
    pub frequency: u32,
}

/// Settings of the watchdog oscillator: its analog clock (kHz) and the
/// divider applied to it.
#[derive(Clone, Copy, Debug, PartialEq, Eq, Structural)]
pub struct WdOscConfig {
    pub divider: u8,
    pub analog_clock: u32,
}

/// Main clock multiplexer and divider.
#[derive(Clone, Copy, Debug, PartialEq, Eq, Structural)]
pub struct MainClkConfig {
    pub source: MainClkSrc,
    pub divider: u8,
}

/// USB clock multiplexer and divider.
#[derive(Clone, Copy, Debug, PartialEq, Eq, Structural)]
pub struct UsbClkConfig {
    pub divider: u8,
    pub source: UsbClkSrc,
}

/// Why a configuration was rejected, or why applying it failed.
#[derive(Clone, Copy, Debug, PartialEq, Eq, Structural)]
pub enum ClockError {
    /// Requested system clock out of range
    SysClkOutOfRange,
    /// Requested watchdog oscillator frequency out of range
    WdOscOutOfRange,
    /// Could not find valid PLL parameters for system PLL.
    InvalidSysPllParameters,
    /// Could not find valid PLL parameters for USB PLL.
    InvalidUsbPllParameters,
    /// USB clock is not 48MHz
    UsbClkOutOfRange,
    /// System PLL failed to lock within the timeout period.
    SysPllLockTimedOut,
    /// USB PLL failed to lock within the timeout period.
    UsbPllLockTimedOut,
}

/// A complete description of the clock tree. A peripheral divider of `None`
/// leaves that peripheral's clock off.
#[derive(Clone, Copy, Debug, PartialEq, Eq, Structural)]
pub struct ClockConfig {
    pub irc: IrcConfig,
    pub sysosc_khz: Option<u32>,
    pub wdosc: Option<WdOscConfig>,
    pub mainclk: MainClkConfig,
    pub sys_pll: Option<PllConfig>,
    pub usb_pll: Option<PllConfig>,
    pub usb_pclk: Option<UsbClkConfig>,
    pub ssp0_pclk_divider: Option<u8>,
    pub ssp1_pclk_divider: Option<u8>,
    pub usart_pclk_divider: Option<u8>,
}

/// An optional frequency as a mathematical integer.
pub open spec fn khz(v: Option<u32>) -> Option<int> {
    match v {
        Some(f) => Some(f as int),
        None => None,
    }
}

/// A divider register value that is set (non-zero) when present.
pub open spec fn divider_set(d: Option<u8>) -> bool {
    match d {
        Some(v) => v >= 1,
        None => true,
    }
}

/// The configuration that runs the main clock directly from the internal RC oscillator.
pub open spec fn irc_12mhz_spec() -> ClockConfig {
    ClockConfig {
        irc: IrcConfig::Enabled,
        sysosc_khz: None,
        wdosc: None,
        mainclk: MainClkConfig { divider: 1, source: MainClkSrc::Irc },
        sys_pll: None,
        usb_pll: None,
        usb_pclk: None,
        ssp0_pclk_divider: None,
        ssp1_pclk_divider: None,
        usart_pclk_divider: None,
    }
}

/// The internal RC oscillator drives the system PLL with multiplier `m` and
/// post-divider `p`, which drives the main clock undivided.
pub open spec fn irc_pll_spec(m: u8, p: u8) -> ClockConfig {
    ClockConfig {
        mainclk: MainClkConfig { source: MainClkSrc::SysPll, divider: 1 },
        sys_pll: Some(PllConfig { source: PllClkSrc::Irc, m, p }),
        ..irc_12mhz_spec()
    }
}

/// A crystal oscillator of `khz` drives the main clock undivided.
pub open spec fn crystal_oscillator_spec(khz: u32) -> ClockConfig {
    ClockConfig {
        irc: IrcConfig::Disabled,
        sysosc_khz: Some(khz),
        mainclk: MainClkConfig { source: MainClkSrc::SysOsc, divider: 1 },
        ..irc_12mhz_spec()
    }
}

proof fn lemma_band_bounds_output(p: int, out_khz: int)
    requires
        p >= 1,
        out_khz >= 0,
        cco_in_band(p, out_khz),
    ensures
        out_khz <= 160_000,
{
    assert(out_khz <= 160_000) by (nonlinear_arith)
        requires
            p >= 1,
            out_khz >= 0,
            2 * p * out_khz <= 320_000,
    ;
}

proof fn lemma_first_divider_unique(input_khz: int, target_khz: int, d: int, e: int)
    requires
        is_first_divider(input_khz, target_khz, d),
        is_first_divider(input_khz, target_khz, e),
    ensures
        d == e,
{
}

proof fn lemma_div_exact(q: int, d: int)
    requires
        d >= 1,
        q >= 0,
    ensures
        (q * d) / d == q,
        (q * d) % d == 0,
{
    assert((q * d) / d == q && (q * d) % d == 0) by (nonlinear_arith)
        requires
            d >= 1,
            q >= 0,
    ;
}

/// The FREQSEL code of a watchdog analog clock of `analog_khz`, for the
/// fifteen frequencies the oscillator offers.
pub open spec fn wdosc_freqsel(analog_khz: int) -> Option<int> {
    if analog_khz == 600 {
        Some(1)
    } else if analog_khz == 1_050 {
        Some(2)
    } else if analog_khz == 1_400 {
        Some(3)
    } else if analog_khz == 1_750 {
        Some(4)
    } else if analog_khz == 2_100 {
        Some(5)
    } else if analog_khz == 2_400 {
        Some(6)
    } else if analog_khz == 2_700 {
        Some(7)
    } else if analog_khz == 3_000 {
        Some(8)
    } else if analog_khz == 3_250 {
        Some(9)
    } else if analog_khz == 3_500 {
        Some(10)
    } else if analog_khz == 3_750 {
        Some(11)
    } else if analog_khz == 4_000 {
        Some(12)
    } else if analog_khz == 4_200 {
        Some(13)
    } else if analog_khz == 4_400 {
        Some(14)
    } else if analog_khz == 4_600 {
        Some(15)
    } else {
        None
    }
}

impl WdOscConfig {
    /// The analog clock is one the oscillator offers, and the divider is even
    /// and between 2 and 64.
    pub open spec fn valid(self) -> bool {
        &&& wdosc_freqsel(self.analog_clock as int) is Some
        &&& 2 <= self.divider <= 64
        &&& self.divider % 2 == 0
    }

    /// The FREQSEL and DIVSEL fields of the watchdog oscillator control
    /// register, which divides by `2 * (1 + DIVSEL)`; `None` for settings the
    /// hardware does not offer.
    pub fn ctrl_fields(&self) -> (r: Option<(u8, u8)>)
        ensures
            r is Some <==> self.valid(),
            r matches Some((freqsel, divsel)) ==> {
                &&& wdosc_freqsel(self.analog_clock as int) == Some(freqsel as int)
                &&& self.divider == 2 * (1 + divsel)
            },
    {
        let freqsel: u8 = match self.analog_clock {
            600 => 1,
            1_050 => 2,
            1_400 => 3,
            1_750 => 4,
            2_100 => 5,
            2_400 => 6,
            2_700 => 7,
            3_000 => 8,
            3_250 => 9,
            3_500 => 10,
            3_750 => 11,
            4_000 => 12,
            4_200 => 13,
            4_400 => 14,
            4_600 => 15,
            _ => return None,
        };
        if self.divider < 2 || self.divider > 64 || self.divider % 2 != 0 {
            return None;
        }
        Some((freqsel, self.divider / 2 - 1))
    }
}

impl ClockConfig {
    /// Frequency of the internal RC oscillator, when it runs.
    pub open spec fn irc_spec(self) -> Option<int> {
        match self.irc {
            IrcConfig::Enabled => Some(IRC_KHZ as int),
            IrcConfig::Disabled => None,
        }
    }

    /// Frequency of the crystal oscillator, when configured.
    pub open spec fn sysosc_spec(self) -> Option<int> {
        khz(self.sysosc_khz)
    }

    /// Frequency of the watchdog oscillator, when configured.
    pub open spec fn wdosc_spec(self) -> Option<int> {
        match self.wdosc {
            Some(w) => Some(w.analog_clock as int / w.divider as int),
            None => None,
        }
    }

    /// Frequency of a PLL input.
    pub open spec fn pll_input_spec(self, source: PllClkSrc) -> Option<int> {
        match source {
            PllClkSrc::Irc => self.irc_spec(),
            PllClkSrc::Sysosc => self.sysosc_spec(),
        }
    }

    /// Output frequency of a PLL with settings `pll`, when present and fed.
    pub open spec fn pll_output_spec(self, pll: Option<PllConfig>) -> Option<int> {
        match pll {
            Some(c) => match self.pll_input_spec(c.source) {
                Some(f) => Some(f * c.m),
                None => None,
            },
            None => None,
        }
    }

    pub open spec fn syspll_spec(self) -> Option<int> {
        self.pll_output_spec(self.sys_pll)
    }

    pub open spec fn usbpll_spec(self) -> Option<int> {
        self.pll_output_spec(self.usb_pll)
    }

    /// Frequency of the main clock's selected source, before its divider.
    pub open spec fn mainclk_src_spec(self) -> Option<int> {
        match self.mainclk.source {
            MainClkSrc::Irc => self.irc_spec(),
            MainClkSrc::SysOsc => self.sysosc_spec(),
            MainClkSrc::WdOsc => self.wdosc_spec(),
            MainClkSrc::SysPll => self.syspll_spec(),
        }
    }

    /// Frequency of the main clock.
    pub open spec fn mainclk_spec(self) -> int {
        self.mainclk_src_spec()->0 / self.mainclk.divider as int
    }

    /// The main clock divided by `d`, when `d` is present.
    pub open spec fn divided_mainclk_spec(self, d: Option<u8>) -> Option<int> {
        match d {
            Some(v) => Some(self.mainclk_spec() / v as int),
            None => None,
        }
    }

    pub open spec fn usbclk_spec(self) -> Option<int> {
        match self.usb_pclk {
            Some(u) => match u.source {
                UsbClkSrc::MainClk => Some(self.mainclk_spec() / u.divider as int),
                UsbClkSrc::UsbPll => match self.usbpll_spec() {
                    Some(f) => Some(f / u.divider as int),
                    None => None,
                },
            },
            None => None,
        }
    }

    pub open spec fn ssp0_pclk_spec(self) -> Option<int> {
        self.divided_mainclk_spec(self.ssp0_pclk_divider)
    }

    pub open spec fn ssp1_pclk_spec(self) -> Option<int> {
        self.divided_mainclk_spec(self.ssp1_pclk_divider)
    }

    pub open spec fn usart_pclk_spec(self) -> Option<int> {
        self.divided_mainclk_spec(self.usart_pclk_divider)
    }

    /// The main clock comes from the crystal oscillator, directly or through
    /// the system PLL.
    pub open spec fn sysosc_sourced(self) -> bool {
        match self.mainclk.source {
            MainClkSrc::SysOsc => true,
            MainClkSrc::SysPll => self.sys_pll matches Some(c) && c.source == PllClkSrc::Sysosc,
            _ => false,
        }
    }

    /// The watchdog oscillator, if used, has settings the hardware offers.
    pub open spec fn wdosc_valid(self) -> bool {
        self.wdosc matches Some(w) ==> w.valid()
    }

    /// The crystal oscillator, if used, has a non-zero frequency.
    pub open spec fn sysosc_valid(self) -> bool {
        self.sysosc_khz matches Some(f) ==> f >= 1
    }

    /// A PLL, if present, has a running input, a multiplier and post-divider
    /// in range, and its internal oscillator in band.
    pub open spec fn pll_valid(self, pll: Option<PllConfig>) -> bool {
        match pll {
            Some(c) => match self.pll_input_spec(c.source) {
                Some(f) => {
                    &&& 1 <= c.m <= PLL_M_MAX
                    &&& is_post_divider(c.p as int)
                    &&& cco_in_band(c.p as int, f * c.m)
                },
                None => false,
            },
            None => true,
        }
    }

    /// The main clock's source runs and its divider is set.
    pub open spec fn mainclk_valid(self) -> bool {
        self.mainclk.divider >= 1 && self.mainclk_src_spec() is Some
    }

    /// The USB clock, if used, has its divider set and runs at exactly 48 MHz.
    pub open spec fn usbclk_valid(self) -> bool {
        self.usb_pclk matches Some(u) ==> u.divider >= 1 && self.usbclk_spec() == Some(
            USB_FS_KHZ as int,
        )
    }

    /// Every peripheral divider in use is set.
    pub open spec fn dividers_valid(self) -> bool {
        divider_set(self.ssp0_pclk_divider) && divider_set(self.ssp1_pclk_divider) && divider_set(
            self.usart_pclk_divider,
        )
    }

    /// Every oscillator and PLL in use runs within its limits, and so does the
    /// main clock.
    pub open spec fn sources_valid(self) -> bool {
        &&& self.wdosc_valid()
        &&& self.sysosc_valid()
        &&& self.pll_valid(self.sys_pll)
        &&& self.pll_valid(self.usb_pll)
        &&& self.mainclk_valid()
    }

    /// The configuration describes a clock tree the hardware can run: every
    /// declared source exists and every node is within its limits.
    pub open spec fn wf(self) -> bool {
        &&& self.sources_valid()
        &&& self.usbclk_valid()
        &&& self.dividers_valid()
    }

    /// What `enable_usb_fs` returns: the main clock divided down when it comes
    /// from the crystal and is an exact multiple of 48 MHz, else the crystal
    /// through the USB PLL and the first output divider that works.
    pub open spec fn enable_usb_fs_spec(self) -> Result<ClockConfig, ClockError> {
        let main = self.mainclk_spec();
        let usb = USB_FS_KHZ as int;
        if self.sysosc_sourced() && main % usb == 0 && 1 <= main / usb <= DIVIDER_MAX {
            Ok(
                ClockConfig {
                    usb_pll: None,
                    usb_pclk: Some(
                        UsbClkConfig { divider: (main / usb) as u8, source: UsbClkSrc::MainClk },
                    ),
                    ..self
                },
            )
        } else {
            match self.sysosc_khz {
                Some(f) => if reachable_with_divider(f as int, usb) {
                    let d = choose|d: int| is_first_divider(f as int, usb, d);
                    Ok(
                        ClockConfig {
                            usb_pll: Some(solution(PllClkSrc::Sysosc, f as int, usb * d)),
                            usb_pclk: Some(
                                UsbClkConfig { divider: d as u8, source: UsbClkSrc::UsbPll },
                            ),
                            ..self
                        },
                    )
                } else {
                    Err(ClockError::UsbClkOutOfRange)
                },
                None => Err(ClockError::UsbClkOutOfRange),
            }
        }
    }

    /// What `enable_ssp0` returns: the main clock divided by the largest
    /// divider that keeps SSP0 at or above `target_khz`.
    pub open spec fn enable_ssp0_spec(self, target_khz: int) -> Result<ClockConfig, ClockError> {
        let main = self.mainclk_spec();
        if target_khz == 0 || main < target_khz || main / target_khz > DIVIDER_MAX {
            Err(ClockError::SysClkOutOfRange)
        } else {
            Ok(ClockConfig { ssp0_pclk_divider: Some((main / target_khz) as u8), ..self })
        }
    }

    /// The first rule that the configuration breaks, in the order `validate`
    /// checks them.
    pub open spec fn config_error(self) -> Option<ClockError> {
        if !self.wdosc_valid() {
            Some(ClockError::WdOscOutOfRange)
        } else if !self.sysosc_valid() {
            Some(ClockError::SysClkOutOfRange)
        } else if !self.pll_valid(self.sys_pll) {
            Some(ClockError::InvalidSysPllParameters)
        } else if !self.pll_valid(self.usb_pll) {
            Some(ClockError::InvalidUsbPllParameters)
        } else if !self.mainclk_valid() {
            Some(ClockError::SysClkOutOfRange)
        } else if !self.usbclk_valid() {
            Some(ClockError::UsbClkOutOfRange)
        } else if !self.dividers_valid() {
            Some(ClockError::SysClkOutOfRange)
        } else {
            None
        }
    }
}


impl ClockConfig {
    /// Directly use the IRC as the main clock's source.
    pub fn irc_12mhz() -> (r: ClockConfig)
        ensures
            r == irc_12mhz_spec(),
            r.wf(),
            r.mainclk_spec() == IRC_KHZ,
    {
        ClockConfig {
            irc: IrcConfig::Enabled,
            sysosc_khz: None,
            wdosc: None,
            mainclk: MainClkConfig { divider: 1, source: MainClkSrc::Irc },
            sys_pll: None,
            usb_pll: None,
            usb_pclk: None,
            ssp0_pclk_divider: None,
            ssp1_pclk_divider: None,
            usart_pclk_divider: None,
        }
    }

    /// Use the IRC to drive the system PLL to 24MHz, and use the system PLL as the main clock's source.
    pub fn irc_24mhz() -> (r: ClockConfig)
        ensures
            r == irc_pll_spec(2, 4),
            r.wf(),
            r.mainclk_spec() == 24_000,
    {
        let base = ClockConfig::irc_12mhz();
        let r = ClockConfig {
            mainclk: MainClkConfig { source: MainClkSrc::SysPll, divider: 1 },
            sys_pll: Some(PllConfig { source: PllClkSrc::Irc, m: 2, p: 4 }),
            ..base
        };
        assert(r.syspll_spec() == Some(24_000int) && cco_in_band(4, 24_000));
        r
    }

    /// Use the IRC to drive the system PLL to 48MHz, and use the system PLL as the main clock's source.
    pub fn irc_48mhz() -> (r: ClockConfig)
        ensures
            r == irc_pll_spec(4, 2),
            r.wf(),
            r.mainclk_spec() == 48_000,
    {
        let base = ClockConfig::irc_12mhz();
        let r = ClockConfig {
            mainclk: MainClkConfig { source: MainClkSrc::SysPll, divider: 1 },
            sys_pll: Some(PllConfig { source: PllClkSrc::Irc, m: 4, p: 2 }),
            ..base
        };
        assert(r.syspll_spec() == Some(48_000int) && cco_in_band(2, 48_000));
        r
    }

    /// Use an external crystal oscillator of `khz` as the main clock source.
    pub fn crystal_oscillator(khz: u32) -> (r: ClockConfig)
        requires
            khz > 0,
        ensures
            r == crystal_oscillator_spec(khz),
            r.wf(),
            r.mainclk_spec() == khz,
    {
        let base = ClockConfig::irc_12mhz();
        ClockConfig {
            irc: IrcConfig::Disabled,
            sysosc_khz: Some(khz),
            mainclk: MainClkConfig { source: MainClkSrc::SysOsc, divider: 1 },
            ..base
        }
    }

    pub fn irc_khz(&self) -> (r: Option<u32>)
        ensures
            khz(r) == self.irc_spec(),
    {
        match self.irc {
            IrcConfig::Disabled => None,
            IrcConfig::Enabled => Some(IRC_KHZ),
        }
    }

    pub fn sysosc_khz(&self) -> (r: Option<u32>)
        ensures
            khz(r) == self.sysosc_spec(),
    {
        self.sysosc_khz
    }

    pub fn wdosc_khz(&self) -> (r: Option<u32>)
        requires
            self.sources_valid(),
        ensures
            khz(r) == self.wdosc_spec(),
    {
        match self.wdosc {
            Some(w) => Some(w.analog_clock / w.divider as u32),
            None => None,
        }
    }

    fn pll_input_khz(&self, source: PllClkSrc) -> (r: Option<u32>)
        ensures
            khz(r) == self.pll_input_spec(source),
    {
        match source {
            PllClkSrc::Irc => self.irc_khz(),
            PllClkSrc::Sysosc => self.sysosc_khz(),
        }
    }

    fn pll_output_khz(&self, pll: Option<PllConfig>) -> (r: Option<u32>)
        requires
            self.pll_valid(pll),
        ensures
            khz(r) == self.pll_output_spec(pll),
            r matches Some(f) ==> f <= 160_000,
    {
        match pll {
            Some(c) => {
                let f = self.pll_input_khz(c.source).unwrap();
                proof {
                    lemma_band_bounds_output(c.p as int, f * c.m);
                }
                Some(f * c.m as u32)
            },
            None => None,
        }
    }

    pub fn syspll_khz(&self) -> (r: Option<u32>)
        requires
            self.sources_valid(),
        ensures
            khz(r) == self.syspll_spec(),
    {
        self.pll_output_khz(self.sys_pll)
    }

    pub fn usbpll_khz(&self) -> (r: Option<u32>)
        requires
            self.sources_valid(),
        ensures
            khz(r) == self.usbpll_spec(),
    {
        self.pll_output_khz(self.usb_pll)
    }

    /// Frequency of the main clock's source, before the main clock divider.
    pub fn mainclk_src_khz(&self) -> (r: u32)
        requires
            self.sources_valid(),
        ensures
            self.mainclk_src_spec() == Some(r as int),
    {
        match self.mainclk.source {
            MainClkSrc::Irc => IRC_KHZ,
            MainClkSrc::SysOsc => self.sysosc_khz.unwrap(),
            MainClkSrc::WdOsc => self.wdosc_khz().unwrap(),
            MainClkSrc::SysPll => self.syspll_khz().unwrap(),
        }
    }

    fn mainclk_is_sysosc_sourced(&self) -> (r: bool)
        ensures
            r == self.sysosc_sourced(),
    {
        match self.mainclk.source {
            MainClkSrc::SysOsc => true,
            MainClkSrc::SysPll => match self.sys_pll {
                Some(c) => c.source == PllClkSrc::Sysosc,
                None => false,
            },
            _ => false,
        }
    }

    pub fn mainclk_khz(&self) -> (r: u32)
        requires
            self.sources_valid(),
        ensures
            r == self.mainclk_spec(),
    {
        self.mainclk_src_khz() / self.mainclk.divider as u32
    }

    fn divided_mainclk_khz(&self, d: Option<u8>) -> (r: Option<u32>)
        requires
            self.sources_valid(),
            divider_set(d),
        ensures
            khz(r) == self.divided_mainclk_spec(d),
    {
        match d {
            Some(v) => Some(self.mainclk_khz() / v as u32),
            None => None,
        }
    }

    pub fn usbclk_khz(&self) -> (r: Option<u32>)
        requires
            self.sources_valid(),
            self.usb_pclk matches Some(u) ==> u.divider >= 1,
        ensures
            khz(r) == self.usbclk_spec(),
    {
        match self.usb_pclk {
            Some(u) => match u.source {
                UsbClkSrc::MainClk => Some(self.mainclk_khz() / u.divider as u32),
                UsbClkSrc::UsbPll => match self.usbpll_khz() {
                    Some(f) => Some(f / u.divider as u32),
                    None => None,
                },
            },
            None => None,
        }
    }

    pub fn ssp0_pclk_khz(&self) -> (r: Option<u32>)
        requires
            self.wf(),
        ensures
            khz(r) == self.ssp0_pclk_spec(),
    {
        self.divided_mainclk_khz(self.ssp0_pclk_divider)
    }

    pub fn ssp1_pclk_khz(&self) -> (r: Option<u32>)
        requires
            self.wf(),
        ensures
            khz(r) == self.ssp1_pclk_spec(),
    {
        self.divided_mainclk_khz(self.ssp1_pclk_divider)
    }

    pub fn usart_pclk_khz(&self) -> (r: Option<u32>)
        requires
            self.wf(),
        ensures
            khz(r) == self.usart_pclk_spec(),
    {
        self.divided_mainclk_khz(self.usart_pclk_divider)
    }
}


impl ClockConfig {
    /// Checks that the configuration can run on the hardware, and names the
    /// first rule it breaks otherwise.
    pub fn validate(&self) -> (r: Result<(), ClockError>)
        ensures
            r is Ok <==> self.wf(),
            r matches Err(e) ==> self.config_error() == Some(e),
    {
        let wdosc_ok = match self.wdosc {
            Some(w) => w.ctrl_fields().is_some(),
            None => true,
        };
        if !wdosc_ok {
            return Err(ClockError::WdOscOutOfRange);
        }
        let sysosc_ok = match self.sysosc_khz {
            Some(f) => f >= 1,
            None => true,
        };
        if !sysosc_ok {
            return Err(ClockError::SysClkOutOfRange);
        }
        if !self.pll_is_valid(self.sys_pll) {
            return Err(ClockError::InvalidSysPllParameters);
        }
        if !self.pll_is_valid(self.usb_pll) {
            return Err(ClockError::InvalidUsbPllParameters);
        }
        if self.mainclk.divider == 0 || !self.mainclk_source_runs() {
            return Err(ClockError::SysClkOutOfRange);
        }
        let usb_ok = match self.usb_pclk {
            Some(u) => u.divider >= 1 && self.usbclk_khz() == Some(USB_FS_KHZ),
            None => true,
        };
        if !usb_ok {
            return Err(ClockError::UsbClkOutOfRange);
        }
        let dividers_ok = divider_is_set(self.ssp0_pclk_divider) && divider_is_set(
            self.ssp1_pclk_divider,
        ) && divider_is_set(self.usart_pclk_divider);
        if !dividers_ok {
            return Err(ClockError::SysClkOutOfRange);
        }
        Ok(())
    }

    fn pll_is_valid(&self, pll: Option<PllConfig>) -> (r: bool)
        ensures
            r == self.pll_valid(pll),
    {
        match pll {
            Some(c) => match self.pll_input_khz(c.source) {
                Some(f) => {
                    if c.m < 1 || c.m as u32 > PLL_M_MAX {
                        return false;
                    }
                    if !(c.p == 1 || c.p == 2 || c.p == 4 || c.p == 8) {
                        return false;
                    }
                    assert(f * c.m <= 32 * 0xffff_ffffu64 && 2 * c.p * (f * c.m) <= 16 * 32
                        * 0xffff_ffffu64) by (nonlinear_arith)
                        requires
                            c.p <= 8,
                            c.m <= 32,
                            f <= 0xffff_ffffu32,
                    ;
                    let cco: u64 = 2 * c.p as u64 * (f as u64 * c.m as u64);
                    CCO_MIN_KHZ as u64 <= cco && cco <= CCO_MAX_KHZ as u64
                },
                None => false,
            },
            None => true,
        }
    }

    fn mainclk_source_runs(&self) -> (r: bool)
        ensures
            r == self.mainclk_src_spec() is Some,
    {
        match self.mainclk.source {
            MainClkSrc::Irc => self.irc == IrcConfig::Enabled,
            MainClkSrc::SysOsc => self.sysosc_khz.is_some(),
            MainClkSrc::WdOsc => self.wdosc.is_some(),
            MainClkSrc::SysPll => match self.sys_pll {
                Some(c) => self.pll_input_khz(c.source).is_some(),
                None => false,
            },
        }
    }

    /// Derives a 48 MHz USB clock for full-speed operation. The main clock is
    /// divided down when it comes from the crystal oscillator and is an exact
    /// multiple of 48 MHz; otherwise the crystal oscillator drives the USB PLL.
    /// Fails when neither works.
    pub fn enable_usb_fs(self) -> (r: Result<ClockConfig, ClockError>)
        requires
            self.wf(),
        ensures
            r == self.enable_usb_fs_spec(),
            r matches Ok(c) ==> c.wf() && c.usbclk_spec() == Some(USB_FS_KHZ as int),
    {
        let main = self.mainclk_khz();
        let quot = main / USB_FS_KHZ;
        let rem = main % USB_FS_KHZ;
        if self.mainclk_is_sysosc_sourced() && rem == 0 && 1 <= quot && quot <= DIVIDER_MAX {
            let r = ClockConfig {
                usb_pll: None,
                usb_pclk: Some(UsbClkConfig { divider: quot as u8, source: UsbClkSrc::MainClk }),
                ..self
            };
            proof {
                assert(main == quot * USB_FS_KHZ) by (nonlinear_arith)
                    requires
                        rem == main % USB_FS_KHZ,
                        quot == main / USB_FS_KHZ,
                        rem == 0,
                ;
                lemma_div_exact(USB_FS_KHZ as int, quot as int);
                assert(r.mainclk_spec() == main);
            }
            return Ok(r);
        }
        if let Some(f) = self.sysosc_khz {
            if let Some((c, d)) = PllConfig::calculate_with_divider(PllClkSrc::Sysosc, f, USB_FS_KHZ) {
                let r = ClockConfig {
                    usb_pll: Some(c),
                    usb_pclk: Some(UsbClkConfig { divider: d, source: UsbClkSrc::UsbPll }),
                    ..self
                };
                proof {
                    let usb = USB_FS_KHZ as int;
                    let e = choose|e: int| is_first_divider(f as int, usb, e);
                    lemma_first_divider_unique(f as int, usb, d as int, e);
                    lemma_solution_exact(PllClkSrc::Sysosc, f as int, usb * d);
                    lemma_div_exact(usb, d as int);
                    assert(r.usbpll_spec() == Some(usb * d));
                    assert(r.mainclk_spec() == self.mainclk_spec());
                }
                return Ok(r);
            }
        }
        Err(ClockError::UsbClkOutOfRange)
    }

    /// Clocks SSP0 from the main clock, divided by the largest divider that
    /// keeps it at or above `target_khz`. Fails when the main clock is slower
    /// than the target or the divider does not fit its 8-bit register.
    pub fn enable_ssp0(self, target_khz: u32) -> (r: Result<ClockConfig, ClockError>)
        requires
            self.wf(),
        ensures
            r == self.enable_ssp0_spec(target_khz as int),
            r matches Ok(c) ==> {
                &&& c.wf()
                &&& c.ssp0_pclk_spec() matches Some(f) && f >= target_khz
            },
    {
        let main = self.mainclk_khz();
        if target_khz == 0 || main < target_khz {
            return Err(ClockError::SysClkOutOfRange);
        }
        let divider = main / target_khz;
        if divider > DIVIDER_MAX {
            return Err(ClockError::SysClkOutOfRange);
        }
        let r = ClockConfig { ssp0_pclk_divider: Some(divider as u8), ..self };
        proof {
            assert(divider >= 1 && main / divider >= target_khz) by (nonlinear_arith)
                requires
                    target_khz >= 1,
                    main >= target_khz,
                    divider == main / target_khz,
            ;
            assert(r.mainclk_spec() == main);
        }
        Ok(r)
    }
}

fn divider_is_set(d: Option<u8>) -> (r: bool)
    ensures
        r == divider_set(d),
{
    match d {
        Some(v) => v >= 1,
        None => true,
    }
}


/// The frequency of every node of the clock tree, in kHz; `None` where the
/// node is not driven.
#[derive(Clone, Copy, Debug, PartialEq, Eq, Structural)]
pub struct ClockFrequencies {
    pub sysosc: Option<u32>,
    pub wdosc: Option<u32>,
    pub sys_pll: Option<u32>,
    pub usb_pll: Option<u32>,
    pub mainclk: u32,
    pub usb_pclk: Option<u32>,
    pub ssp0_pclk: Option<u32>,
    pub ssp1_pclk: Option<u32>,
    pub usart_pclk: Option<u32>,
}

/// A node of the clock tree.
#[derive(Clone, Copy, Debug, PartialEq, Eq, Structural)]
pub enum ClockNode {
    Sysosc,
    Wdosc,
    SysPll,
    UsbPll,
    MainClk,
    UsbPclk,
    Ssp0Pclk,
    Ssp1Pclk,
    UsartPclk,
}

impl ClockConfig {
    /// `f` holds the frequency this configuration gives every node.
    pub open spec fn derives(self, f: ClockFrequencies) -> bool {
        &&& khz(f.sysosc) == self.sysosc_spec()
        &&& khz(f.wdosc) == self.wdosc_spec()
        &&& khz(f.sys_pll) == self.syspll_spec()
        &&& khz(f.usb_pll) == self.usbpll_spec()
        &&& f.mainclk == self.mainclk_spec()
        &&& khz(f.usb_pclk) == self.usbclk_spec()
        &&& khz(f.ssp0_pclk) == self.ssp0_pclk_spec()
        &&& khz(f.ssp1_pclk) == self.ssp1_pclk_spec()
        &&& khz(f.usart_pclk) == self.usart_pclk_spec()
    }

    /// Derives the frequency of every node.
    pub fn frequencies(&self) -> (r: ClockFrequencies)
        requires
            self.wf(),
        ensures
            self.derives(r),
    {
        ClockFrequencies {
            sysosc: self.sysosc_khz(),
            wdosc: self.wdosc_khz(),
            sys_pll: self.syspll_khz(),
            usb_pll: self.usbpll_khz(),
            mainclk: self.mainclk_khz(),
            usb_pclk: self.usbclk_khz(),
            ssp0_pclk: self.ssp0_pclk_khz(),
            ssp1_pclk: self.ssp1_pclk_khz(),
            usart_pclk: self.usart_pclk_khz(),
        }
    }
}

proof fn lemma_khz_injective(a: Option<u32>, b: Option<u32>)
    requires
        khz(a) == khz(b),
    ensures
        a == b,
{
}

/// Derivation is a function of the configuration alone: deriving twice from
/// the same configuration gives the same frequencies.
pub proof fn lemma_derivation_deterministic(c: ClockConfig, f: ClockFrequencies, g: ClockFrequencies)
    requires
        c.wf(),
        c.derives(f),
        c.derives(g),
    ensures
        f == g,
{
    lemma_khz_injective(f.sysosc, g.sysosc);
    lemma_khz_injective(f.wdosc, g.wdosc);
    lemma_khz_injective(f.sys_pll, g.sys_pll);
    lemma_khz_injective(f.usb_pll, g.usb_pll);
    lemma_khz_injective(f.usb_pclk, g.usb_pclk);
    lemma_khz_injective(f.ssp0_pclk, g.ssp0_pclk);
    lemma_khz_injective(f.ssp1_pclk, g.ssp1_pclk);
    lemma_khz_injective(f.usart_pclk, g.usart_pclk);
}

impl ClockFrequencies {
    /// The frequency of `node`, or `None` where it is not driven.
    pub fn get(&self, node: ClockNode) -> (r: Option<u32>)
        ensures
            r == match node {
                ClockNode::Sysosc => self.sysosc,
                ClockNode::Wdosc => self.wdosc,
                ClockNode::SysPll => self.sys_pll,
                ClockNode::UsbPll => self.usb_pll,
                ClockNode::MainClk => Some(self.mainclk),
                ClockNode::UsbPclk => self.usb_pclk,
                ClockNode::Ssp0Pclk => self.ssp0_pclk,
                ClockNode::Ssp1Pclk => self.ssp1_pclk,
                ClockNode::UsartPclk => self.usart_pclk,
            },
    {
        match node {
            ClockNode::Sysosc => self.sysosc,
            ClockNode::Wdosc => self.wdosc,
            ClockNode::SysPll => self.sys_pll,
            ClockNode::UsbPll => self.usb_pll,
            ClockNode::MainClk => Some(self.mainclk),
            ClockNode::UsbPclk => self.usb_pclk,
            ClockNode::Ssp0Pclk => self.ssp0_pclk,
            ClockNode::Ssp1Pclk => self.ssp1_pclk,
            ClockNode::UsartPclk => self.usart_pclk,
        }
    }
}


impl Default for ClockConfig {
    fn default() -> (r: ClockConfig)
        ensures
            r == irc_12mhz_spec(),
    {
        ClockConfig::irc_12mhz()
    }
}

impl Default for MainClkConfig {
    fn default() -> (r: MainClkConfig)
        ensures
            r == (MainClkConfig { source: MainClkSrc::Irc, divider: 1 }),
    {
        MainClkConfig { source: MainClkSrc::Irc, divider: 1 }
    }
}


/// Feeding a PLL's derived output back into the solver as its target gives
/// back the same settings, for every PLL whose post-divider is the smallest
/// that keeps its internal oscillator in band (as the solver picks it).
pub proof fn lemma_solver_round_trip(c: ClockConfig, pll: PllConfig)
    requires
        c.sysosc_valid(),
        c.pll_valid(Some(pll)),
        forall|q: int|
            is_post_divider(q) && q < pll.p ==> !cco_in_band(
                q,
                c.pll_output_spec(Some(pll))->0,
            ),
    ensures
        calculate_spec(
            pll.source,
            c.pll_input_spec(pll.source)->0,
            c.pll_output_spec(Some(pll))->0,
        ) == Some(pll),
{
    let f = c.pll_input_spec(pll.source)->0;
    let out = f * pll.m;
    assert(f >= 1);
    assert(out == pll.m * f) by (nonlinear_arith)
        requires
            out == f * pll.m,
    ;
    lemma_div_exact(pll.m as int, f);
    assert(out / f == pll.m && out % f == 0);
    assert(f <= out) by (nonlinear_arith)
        requires
            f >= 1,
            pll.m >= 1,
            out == f * pll.m,
    ;
    assert(is_post_divider(1) && is_post_divider(2) && is_post_divider(4));
    assert(least_post_divider(out) == Some(pll.p as int));
    assert(solvable(f, out));
    assert(solution(pll.source, f, out) == pll);
}

} // verus!
