use lpc11uxx_hal::clocks::{
    ClockConfig, ClockError, ClockNode, IrcConfig, MainClkConfig, MainClkSrc, UsbClkConfig,
    UsbClkSrc, WdOscConfig,
};
use lpc11uxx_hal::pll::{PllClkSrc, PllConfig};
use lpc11uxx_hal::Config;

#[test]
fn irc_12mhz_runs_main_clock_from_irc() {
    let c = ClockConfig::irc_12mhz();
    assert_eq!(c.validate(), Ok(()));
    assert_eq!(c.irc_khz(), Some(12_000));
    assert_eq!(c.sysosc_khz(), None);
    assert_eq!(c.syspll_khz(), None);
    assert_eq!(c.mainclk_src_khz(), 12_000);
    assert_eq!(c.mainclk_khz(), 12_000);
    assert_eq!(c.usbclk_khz(), None);
}

#[test]
fn irc_24mhz_and_48mhz_presets() {
    let c = ClockConfig::irc_24mhz();
    assert_eq!(c.validate(), Ok(()));
    assert_eq!(c.syspll_khz(), Some(24_000));
    assert_eq!(c.mainclk_khz(), 24_000);
    let c = ClockConfig::irc_48mhz();
    assert_eq!(c.validate(), Ok(()));
    assert_eq!(c.syspll_khz(), Some(48_000));
    assert_eq!(c.mainclk_khz(), 48_000);
}

#[test]
fn crystal_oscillator_preset() {
    let c = ClockConfig::crystal_oscillator(16_000);
    assert_eq!(c.validate(), Ok(()));
    assert_eq!(c.irc, IrcConfig::Disabled);
    assert_eq!(c.irc_khz(), None);
    assert_eq!(c.sysosc_khz(), Some(16_000));
    assert_eq!(c.mainclk_khz(), 16_000);
}

#[test]
fn main_clock_divider_truncates() {
    let mut c = ClockConfig::crystal_oscillator(25_000);
    c.mainclk.divider = 2;
    assert_eq!(c.mainclk_src_khz(), 25_000);
    assert_eq!(c.mainclk_khz(), 12_500);
    c.mainclk.divider = 3;
    assert_eq!(c.mainclk_khz(), 8_333);
}

#[test]
fn watchdog_oscillator_as_main_clock() {
    let mut c = ClockConfig::irc_12mhz();
    c.wdosc = Some(WdOscConfig { divider: 4, analog_clock: 1_050 });
    c.mainclk = MainClkConfig { source: MainClkSrc::WdOsc, divider: 1 };
    assert_eq!(c.validate(), Ok(()));
    assert_eq!(c.wdosc_khz(), Some(262));
    assert_eq!(c.mainclk_khz(), 262);
}

#[test]
fn usb_from_48mhz_crystal_divides_main_clock() {
    let c = ClockConfig::crystal_oscillator(48_000).enable_usb_fs().unwrap();
    assert_eq!(c.usb_pll, None);
    assert_eq!(c.usb_pclk, Some(UsbClkConfig { divider: 1, source: UsbClkSrc::MainClk }));
    assert_eq!(c.usbclk_khz(), Some(48_000));
    assert_eq!(c.validate(), Ok(()));
}

#[test]
fn usb_from_96mhz_crystal_divides_by_two() {
    let c = ClockConfig::crystal_oscillator(96_000).enable_usb_fs().unwrap();
    assert_eq!(c.usb_pll, None);
    assert_eq!(c.usb_pclk, Some(UsbClkConfig { divider: 2, source: UsbClkSrc::MainClk }));
    assert_eq!(c.usbclk_khz(), Some(48_000));
}

#[test]
fn usb_from_12mhz_crystal_uses_usb_pll() {
    let c = ClockConfig::crystal_oscillator(12_000).enable_usb_fs().unwrap();
    assert_eq!(c.usb_pll, Some(PllConfig { source: PllClkSrc::Sysosc, m: 4, p: 2 }));
    assert_eq!(c.usb_pclk, Some(UsbClkConfig { divider: 1, source: UsbClkSrc::UsbPll }));
    assert_eq!(c.usbpll_khz(), Some(48_000));
    assert_eq!(c.usbclk_khz(), Some(48_000));
    assert_eq!(c.validate(), Ok(()));
}

#[test]
fn usb_from_32mhz_crystal_uses_output_divider() {
    let c = ClockConfig::crystal_oscillator(32_000).enable_usb_fs().unwrap();
    assert_eq!(c.usb_pll, Some(PllConfig { source: PllClkSrc::Sysosc, m: 3, p: 1 }));
    assert_eq!(c.usb_pclk, Some(UsbClkConfig { divider: 2, source: UsbClkSrc::UsbPll }));
    assert_eq!(c.usbpll_khz(), Some(96_000));
    assert_eq!(c.usbclk_khz(), Some(48_000));
}

#[test]
fn usb_from_crystal_through_system_pll_divides_main_clock() {
    let mut c = ClockConfig::crystal_oscillator(12_000);
    c.sys_pll = Some(PllConfig { source: PllClkSrc::Sysosc, m: 4, p: 2 });
    c.mainclk = MainClkConfig { source: MainClkSrc::SysPll, divider: 1 };
    assert_eq!(c.validate(), Ok(()));
    let c = c.enable_usb_fs().unwrap();
    assert_eq!(c.usb_pll, None);
    assert_eq!(c.usb_pclk, Some(UsbClkConfig { divider: 1, source: UsbClkSrc::MainClk }));
}

#[test]
fn usb_without_crystal_fails() {
    assert_eq!(ClockConfig::irc_12mhz().enable_usb_fs(), Err(ClockError::UsbClkOutOfRange));
    // The IRC-driven 48 MHz main clock is not accurate enough for USB.
    assert_eq!(ClockConfig::irc_48mhz().enable_usb_fs(), Err(ClockError::UsbClkOutOfRange));
}

#[test]
fn usb_from_unusable_crystal_fails() {
    assert_eq!(
        ClockConfig::crystal_oscillator(7_000).enable_usb_fs(),
        Err(ClockError::UsbClkOutOfRange)
    );
}

#[test]
fn enable_ssp0_divides_main_clock() {
    let c = ClockConfig::irc_48mhz().enable_ssp0(12_000).unwrap();
    assert_eq!(c.ssp0_pclk_divider, Some(4));
    assert_eq!(c.ssp0_pclk_khz(), Some(12_000));
    assert_eq!(c.validate(), Ok(()));
}

#[test]
fn enable_ssp0_rounds_the_clock_up() {
    let c = ClockConfig::irc_48mhz().enable_ssp0(10_000).unwrap();
    assert_eq!(c.ssp0_pclk_divider, Some(4));
    assert_eq!(c.ssp0_pclk_khz(), Some(12_000));
}

#[test]
fn enable_ssp0_out_of_range() {
    let c = ClockConfig::irc_48mhz();
    assert_eq!(c.enable_ssp0(96_000), Err(ClockError::SysClkOutOfRange));
    assert_eq!(c.enable_ssp0(100), Err(ClockError::SysClkOutOfRange));
    assert_eq!(c.enable_ssp0(0), Err(ClockError::SysClkOutOfRange));
    // 48000 / 189 = 253 still fits the 8-bit divider.
    assert_eq!(c.enable_ssp0(189).map(|c| c.ssp0_pclk_divider), Ok(Some(253)));
}

#[test]
fn peripheral_clocks_truncate() {
    let mut c = ClockConfig::irc_48mhz();
    c.ssp1_pclk_divider = Some(7);
    c.usart_pclk_divider = Some(3);
    assert_eq!(c.validate(), Ok(()));
    assert_eq!(c.ssp0_pclk_khz(), None);
    assert_eq!(c.ssp1_pclk_khz(), Some(6_857));
    assert_eq!(c.usart_pclk_khz(), Some(16_000));
}

#[test]
fn validate_names_each_error() {
    let mut c = ClockConfig::irc_12mhz();
    c.wdosc = Some(WdOscConfig { divider: 0, analog_clock: 600 });
    assert_eq!(c.validate(), Err(ClockError::WdOscOutOfRange));
    c.wdosc = Some(WdOscConfig { divider: 3, analog_clock: 600 });
    assert_eq!(c.validate(), Err(ClockError::WdOscOutOfRange));
    c.wdosc = Some(WdOscConfig { divider: 66, analog_clock: 600 });
    assert_eq!(c.validate(), Err(ClockError::WdOscOutOfRange));
    c.wdosc = Some(WdOscConfig { divider: 2, analog_clock: 1_000 });
    assert_eq!(c.validate(), Err(ClockError::WdOscOutOfRange));

    let mut c = ClockConfig::irc_12mhz();
    c.sys_pll = Some(PllConfig { source: PllClkSrc::Irc, m: 40, p: 1 });
    assert_eq!(c.validate(), Err(ClockError::InvalidSysPllParameters));

    let mut c = ClockConfig::irc_12mhz();
    c.sys_pll = Some(PllConfig { source: PllClkSrc::Sysosc, m: 4, p: 2 });
    assert_eq!(c.validate(), Err(ClockError::InvalidSysPllParameters));

    let mut c = ClockConfig::irc_12mhz();
    c.usb_pll = Some(PllConfig { source: PllClkSrc::Irc, m: 4, p: 3 });
    assert_eq!(c.validate(), Err(ClockError::InvalidUsbPllParameters));

    let mut c = ClockConfig::irc_12mhz();
    c.usb_pll = Some(PllConfig { source: PllClkSrc::Irc, m: 4, p: 8 });
    assert_eq!(c.validate(), Err(ClockError::InvalidUsbPllParameters));

    let mut c = ClockConfig::irc_12mhz();
    c.mainclk.source = MainClkSrc::SysPll;
    assert_eq!(c.validate(), Err(ClockError::SysClkOutOfRange));

    let mut c = ClockConfig::irc_12mhz();
    c.mainclk.divider = 0;
    assert_eq!(c.validate(), Err(ClockError::SysClkOutOfRange));

    let mut c = ClockConfig::irc_48mhz();
    c.usb_pclk = Some(UsbClkConfig { divider: 2, source: UsbClkSrc::MainClk });
    assert_eq!(c.validate(), Err(ClockError::UsbClkOutOfRange));

    let mut c = ClockConfig::irc_12mhz();
    c.usart_pclk_divider = Some(0);
    assert_eq!(c.validate(), Err(ClockError::SysClkOutOfRange));
}

#[test]
fn frequencies_cover_every_node() {
    let c = ClockConfig::crystal_oscillator(12_000).enable_usb_fs().unwrap();
    let c = c.enable_ssp0(6_000).unwrap();
    let f = c.frequencies();
    assert_eq!(f.get(ClockNode::Sysosc), Some(12_000));
    assert_eq!(f.get(ClockNode::Wdosc), None);
    assert_eq!(f.get(ClockNode::SysPll), None);
    assert_eq!(f.get(ClockNode::UsbPll), Some(48_000));
    assert_eq!(f.get(ClockNode::MainClk), Some(12_000));
    assert_eq!(f.get(ClockNode::UsbPclk), Some(48_000));
    assert_eq!(f.get(ClockNode::Ssp0Pclk), Some(6_000));
    assert_eq!(f.get(ClockNode::Ssp1Pclk), None);
    assert_eq!(f.get(ClockNode::UsartPclk), None);
}

#[test]
fn deriving_twice_gives_the_same_frequencies() {
    let c = ClockConfig::irc_48mhz().enable_ssp0(16_000).unwrap();
    assert_eq!(c.frequencies(), c.frequencies());
    assert_eq!(c.frequencies().mainclk, 48_000);
}

#[test]
fn default_config_uses_irc() {
    assert_eq!(Config::new().clocks, ClockConfig::irc_12mhz());
    assert_eq!(Config::default().clocks, ClockConfig::irc_12mhz());
}

#[test]
fn default_clock_config_and_main_clock() {
    assert_eq!(ClockConfig::default(), ClockConfig::irc_12mhz());
    assert_eq!(
        MainClkConfig::default(),
        MainClkConfig { source: MainClkSrc::Irc, divider: 1 }
    );
}

#[test]
fn derived_pll_frequency_solves_back_to_its_settings() {
    for c in [ClockConfig::irc_24mhz(), ClockConfig::irc_48mhz()] {
        let pll = c.sys_pll.unwrap();
        let back = PllConfig::calculate(pll.source, c.irc_khz().unwrap(), c.syspll_khz().unwrap());
        assert_eq!(back, Some(pll));
    }
    for khz in [12_000, 16_000, 32_000] {
        let c = ClockConfig::crystal_oscillator(khz).enable_usb_fs().unwrap();
        let pll = c.usb_pll.unwrap();
        let back = PllConfig::calculate(pll.source, khz, c.usbpll_khz().unwrap());
        assert_eq!(back, Some(pll));
    }
}

#[test]
fn watchdog_oscillator_register_fields() {
    assert_eq!(WdOscConfig { divider: 4, analog_clock: 1_050 }.ctrl_fields(), Some((2, 1)));
    assert_eq!(WdOscConfig { divider: 2, analog_clock: 600 }.ctrl_fields(), Some((1, 0)));
    assert_eq!(WdOscConfig { divider: 64, analog_clock: 4_600 }.ctrl_fields(), Some((15, 31)));
    assert_eq!(WdOscConfig { divider: 5, analog_clock: 4_600 }.ctrl_fields(), None);
    assert_eq!(WdOscConfig { divider: 4, analog_clock: 4_500 }.ctrl_fields(), None);
}
