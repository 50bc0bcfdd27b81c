use lpc11uxx_hal::clocks::{ClockConfig, ClockError, MainClkSrc, UsbClkSrc, WdOscConfig};
use lpc11uxx_hal::pll::PllClkSrc;
use lpc11uxx_hal::registers::{apply, ClockRegisters};
use lpc11uxx_hal::sequencer::{plan, Action, Command, MainClkState, Outcome, Pll, Sequencer};

#[test]
fn plan_for_irc_48mhz() {
    let c = ClockConfig::irc_48mhz();
    let p = plan(&c, MainClkState::reset());
    assert_eq!(
        p,
        vec![
            Action::SelectPllSource(Pll::System, PllClkSrc::Irc),
            Action::ProgramPll(Pll::System, 4, 2),
            Action::EnablePll(Pll::System),
            Action::AwaitPllLock(Pll::System),
            Action::SetMainClkDivider(1),
            Action::SelectMainClk(MainClkSrc::SysPll),
        ]
    );
}

#[test]
fn plan_for_crystal_with_usb_and_ssp0() {
    let c = ClockConfig::crystal_oscillator(12_000).enable_usb_fs().unwrap();
    let c = c.enable_ssp0(6_000).unwrap();
    let p = plan(&c, MainClkState::reset());
    assert_eq!(
        p,
        vec![
            Action::EnableSysosc,
            Action::WaitOscillatorsStable,
            Action::SetMainClkDivider(1),
            Action::SelectMainClk(MainClkSrc::SysOsc),
            Action::SelectPllSource(Pll::Usb, PllClkSrc::Sysosc),
            Action::ProgramPll(Pll::Usb, 4, 2),
            Action::EnablePll(Pll::Usb),
            Action::AwaitPllLock(Pll::Usb),
            Action::SelectUsbClk(UsbClkSrc::UsbPll),
            Action::SetUsbClkDivider(1),
            Action::SetSsp0Divider(2),
        ]
    );
}

#[test]
fn slower_source_switches_before_the_divider() {
    let mut c = ClockConfig::crystal_oscillator(8_000);
    c.mainclk.divider = 2;
    let prior = MainClkState { source_khz: 48_000, divider: 1 };
    let p = plan(&c, prior);
    assert_eq!(
        &p[2..],
        &[Action::SelectMainClk(MainClkSrc::SysOsc), Action::SetMainClkDivider(2)]
    );
}

#[test]
fn faster_source_sets_the_divider_first() {
    let mut c = ClockConfig::irc_48mhz();
    c.mainclk.divider = 4;
    let p = plan(&c, MainClkState::reset());
    assert_eq!(
        &p[4..],
        &[Action::SetMainClkDivider(4), Action::SelectMainClk(MainClkSrc::SysPll)]
    );
}

fn run(seq: &mut Sequencer, locks: bool) -> (Vec<Action>, Command) {
    let mut done = Vec::new();
    loop {
        match seq.current() {
            Command::Perform(a) => {
                done.push(a);
                let o = match a {
                    Action::AwaitPllLock(_) => Outcome::LockStatus(locks),
                    _ => Outcome::Done,
                };
                seq.report(o);
            }
            other => return (done, other),
        }
    }
}

#[test]
fn sequencer_finishes_when_pll_locks() {
    let c = ClockConfig::irc_24mhz();
    let mut s = Sequencer::new(&c, MainClkState::reset(), 10);
    let (done, end) = run(&mut s, true);
    assert_eq!(end, Command::Finished);
    assert_eq!(done, plan(&c, MainClkState::reset()));
}

#[test]
fn sequencer_times_out_after_its_poll_budget() {
    let c = ClockConfig::irc_48mhz();
    let mut s = Sequencer::new(&c, MainClkState::reset(), 5);
    let (done, end) = run(&mut s, false);
    assert_eq!(end, Command::Abort(ClockError::SysPllLockTimedOut));
    let reads = done.iter().filter(|a| **a == Action::AwaitPllLock(Pll::System)).count();
    assert_eq!(reads, 5);
    assert!(!done.iter().any(|a| matches!(a, Action::SelectMainClk(_) | Action::SetMainClkDivider(_))));
    // Once stopped, it stays stopped.
    s.report(Outcome::LockStatus(true));
    assert_eq!(s.current(), Command::Abort(ClockError::SysPllLockTimedOut));
}

#[test]
fn sequencer_waits_through_unlocked_readings() {
    let c = ClockConfig::irc_48mhz();
    let mut s = Sequencer::new(&c, MainClkState::reset(), 3);
    for _ in 0..3 {
        s.report(Outcome::Done);
    }
    assert_eq!(s.current(), Command::Perform(Action::AwaitPllLock(Pll::System)));
    s.report(Outcome::LockStatus(false));
    s.report(Outcome::LockStatus(false));
    assert_eq!(s.current(), Command::Perform(Action::AwaitPllLock(Pll::System)));
    s.report(Outcome::LockStatus(true));
    assert_eq!(s.current(), Command::Perform(Action::SetMainClkDivider(1)));
}

#[test]
fn apply_times_out_and_keeps_main_clock_when_system_pll_never_locks() {
    let c = ClockConfig::irc_48mhz();
    let mut regs = ClockRegisters::reset(false, true);
    let r = apply(&c, MainClkState::reset(), &mut regs, 100);
    assert_eq!(r, Err(ClockError::SysPllLockTimedOut));
    assert_eq!(regs.mainclk_source, MainClkSrc::Irc);
    assert_eq!(regs.mainclk_divider, 1);
    assert!(regs.sys_pll.enabled);
}

#[test]
fn apply_reports_usb_pll_timeout() {
    let c = ClockConfig::crystal_oscillator(12_000).enable_usb_fs().unwrap();
    let mut regs = ClockRegisters::reset(true, false);
    let r = apply(&c, MainClkState::reset(), &mut regs, 4);
    assert_eq!(r, Err(ClockError::UsbPllLockTimedOut));
    // The main clock had already been switched; nothing is undone.
    assert_eq!(regs.mainclk_source, MainClkSrc::SysOsc);
}

#[test]
fn apply_programs_every_register() {
    let c = ClockConfig::crystal_oscillator(12_000).enable_usb_fs().unwrap();
    let c = c.enable_ssp0(4_000).unwrap();
    let mut regs = ClockRegisters::reset(true, true);
    let f = apply(&c, MainClkState::reset(), &mut regs, 4).unwrap();
    assert_eq!(f, c.frequencies());
    assert!(regs.sysosc_enabled);
    assert_eq!(regs.mainclk_source, MainClkSrc::SysOsc);
    assert_eq!(regs.usb_pll.m, 4);
    assert_eq!(regs.usb_pll.p, 2);
    assert_eq!(regs.usb_pll.source, PllClkSrc::Sysosc);
    assert!(regs.usb_pll.enabled);
    assert_eq!(regs.usbclk_source, UsbClkSrc::UsbPll);
    assert_eq!(regs.usbclk_divider, 1);
    assert_eq!(regs.ssp0_divider, 3);
    assert!(!regs.sys_pll.enabled);
}

#[test]
fn applying_twice_gives_the_same_registers() {
    let c = ClockConfig::irc_24mhz();
    let mut first = ClockRegisters::reset(true, true);
    let mut second = ClockRegisters::reset(true, true);
    let a = apply(&c, MainClkState::reset(), &mut first, 4);
    let b = apply(&c, MainClkState::reset(), &mut second, 4);
    assert_eq!(a, b);
    assert_eq!(first, second);
}

#[test]
fn plan_for_watchdog_main_clock() {
    let mut c = ClockConfig::irc_12mhz();
    let w = WdOscConfig { divider: 4, analog_clock: 1_050 };
    c.wdosc = Some(w);
    c.mainclk.source = MainClkSrc::WdOsc;
    let p = plan(&c, MainClkState::reset());
    assert_eq!(
        p,
        vec![
            Action::EnableWdosc(w),
            Action::WaitOscillatorsStable,
            Action::SelectMainClk(MainClkSrc::WdOsc),
            Action::SetMainClkDivider(1),
        ]
    );
}
