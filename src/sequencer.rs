//! The order in which a configuration is written to the hardware, and the
//! state machine that walks that order while waiting on PLL lock.
//!
//! Oscillators come first, then the system PLL, then the main clock, then
//! the USB PLL and USB clock, and the peripheral dividers last. The main
//! clock is switched only once the system PLL has locked.
use vstd::prelude::*;

use crate::clocks::{ClockConfig, ClockError, MainClkSrc, UsbClkSrc, WdOscConfig, IRC_KHZ};
use crate::pll::{PllClkSrc, PllConfig};

verus! {

/// One of the two PLLs.
#[derive(Clone, Copy, Debug, PartialEq, Eq, Structural)]
pub enum Pll {
    System,
    Usb,
}

/// One write to (or wait on) the clock hardware.
#[derive(Clone, Copy, Debug, PartialEq, Eq, Structural)]
pub enum Action {
    /// Power up the crystal oscillator.
    EnableSysosc,
    /// Program and power up the watchdog oscillator.
    EnableWdosc(WdOscConfig),
    /// Wait until the oscillators just powered up are stable.
    WaitOscillatorsStable,
    /// Select the input of a PLL.
    SelectPllSource(Pll, PllClkSrc),
    /// Write a PLL's multiplier and post-divider.
    ProgramPll(Pll, u8, u8),
    /// Power up a PLL.
    EnablePll(Pll),
    /// Read a PLL's lock status; the sequence goes on once it reads locked.
    AwaitPllLock(Pll),
    SetMainClkDivider(u8),
    SelectMainClk(MainClkSrc),
    SelectUsbClk(UsbClkSrc),
    SetUsbClkDivider(u8),
    SetSsp0Divider(u8),
    SetSsp1Divider(u8),
    SetUsartDivider(u8),
}

/// The main clock as it runs before the sequence: its source's frequency
/// (kHz) and its divider.
#[derive(Clone, Copy, Debug, PartialEq, Eq, Structural)]
pub struct MainClkState {
    pub source_khz: u32,
    pub divider: u8,
}

impl MainClkState {
    /// The main clock after reset: the internal RC oscillator, undivided.
    pub fn reset() -> (r: MainClkState)
        ensures
            r == (MainClkState { source_khz: IRC_KHZ, divider: 1 }),
    {
        MainClkState { source_khz: IRC_KHZ, divider: 1 }
    }
}

/// The phase of the sequence an action belongs to.
pub open spec fn stage(a: Action) -> int {
    match a {
        Action::EnableSysosc | Action::EnableWdosc(_) | Action::WaitOscillatorsStable => 0,
        Action::SelectPllSource(Pll::System, _)
        | Action::ProgramPll(Pll::System, _, _)
        | Action::EnablePll(Pll::System)
        | Action::AwaitPllLock(Pll::System) => 1,
        Action::SetMainClkDivider(_) | Action::SelectMainClk(_) => 2,
        Action::SelectPllSource(Pll::Usb, _)
        | Action::ProgramPll(Pll::Usb, _, _)
        | Action::EnablePll(Pll::Usb)
        | Action::AwaitPllLock(Pll::Usb) => 3,
        Action::SelectUsbClk(_) | Action::SetUsbClkDivider(_) => 4,
        Action::SetSsp0Divider(_) | Action::SetSsp1Divider(_) | Action::SetUsartDivider(_) => 5,
    }
}

/// The action writes the main clock's multiplexer or divider.
pub open spec fn is_mainclk_action(a: Action) -> bool {
    stage(a) == 2
}

/// The action writes a peripheral clock divider.
pub open spec fn is_peripheral_action(a: Action) -> bool {
    stage(a) == 5
}

pub open spec fn oscillator_steps(c: ClockConfig) -> Seq<Action> {
    let sysosc = if c.sysosc_khz is Some {
        seq![Action::EnableSysosc]
    } else {
        Seq::empty()
    };
    let wdosc = match c.wdosc {
        Some(w) => seq![Action::EnableWdosc(w)],
        None => Seq::empty(),
    };
    if c.sysosc_khz is Some || c.wdosc is Some {
        sysosc + wdosc + seq![Action::WaitOscillatorsStable]
    } else {
        Seq::empty()
    }
}

pub open spec fn pll_steps(pll: Pll, cfg: Option<PllConfig>) -> Seq<Action> {
    match cfg {
        Some(c) => seq![
            Action::SelectPllSource(pll, c.source),
            Action::ProgramPll(pll, c.m, c.p),
            Action::EnablePll(pll),
            Action::AwaitPllLock(pll),
        ],
        None => Seq::empty(),
    }
}

/// The main clock divider is written before the source switch when the new
/// source is at least as fast as the old one, and after it otherwise.
pub open spec fn divider_first(prior: MainClkState, c: ClockConfig) -> bool {
    c.mainclk_src_spec()->0 >= prior.source_khz
}

pub open spec fn mainclk_steps(prior: MainClkState, c: ClockConfig) -> Seq<Action> {
    let divider = Action::SetMainClkDivider(c.mainclk.divider);
    let select = Action::SelectMainClk(c.mainclk.source);
    if divider_first(prior, c) {
        seq![divider, select]
    } else {
        seq![select, divider]
    }
}

pub open spec fn usbclk_steps(c: ClockConfig) -> Seq<Action> {
    match c.usb_pclk {
        Some(u) => seq![Action::SelectUsbClk(u.source), Action::SetUsbClkDivider(u.divider)],
        None => Seq::empty(),
    }
}

pub open spec fn peripheral_steps(c: ClockConfig) -> Seq<Action> {
    let ssp0 = match c.ssp0_pclk_divider {
        Some(d) => seq![Action::SetSsp0Divider(d)],
        None => Seq::empty(),
    };
    let ssp1 = match c.ssp1_pclk_divider {
        Some(d) => seq![Action::SetSsp1Divider(d)],
        None => Seq::empty(),
    };
    let usart = match c.usart_pclk_divider {
        Some(d) => seq![Action::SetUsartDivider(d)],
        None => Seq::empty(),
    };
    ssp0 + ssp1 + usart
}

/// Every action that applying `c` performs, in order, starting from a main
/// clock in state `prior`.
pub open spec fn plan_spec(c: ClockConfig, prior: MainClkState) -> Seq<Action> {
    oscillator_steps(c) + pll_steps(Pll::System, c.sys_pll) + mainclk_steps(prior, c) + pll_steps(
        Pll::Usb,
        c.usb_pll,
    ) + usbclk_steps(c) + peripheral_steps(c)
}

/// The frequency the main clock runs at between its two writes.
pub open spec fn transition_peak_khz(prior: MainClkState, c: ClockConfig) -> int {
    if divider_first(prior, c) {
        prior.source_khz as int / c.mainclk.divider as int
    } else {
        c.mainclk_src_spec()->0 / prior.divider as int
    }
}

pub open spec fn stages_ordered(s: Seq<Action>) -> bool {
    forall|i: int, j: int| 0 <= i < j < s.len() ==> stage(#[trigger] s[i]) <= stage(#[trigger] s[j])
}

pub open spec fn all_in_stage(s: Seq<Action>, k: int) -> bool {
    forall|i: int| 0 <= i < s.len() ==> stage(#[trigger] s[i]) == k
}

pub open spec fn stages_at_most(s: Seq<Action>, k: int) -> bool {
    forall|i: int| 0 <= i < s.len() ==> stage(#[trigger] s[i]) <= k
}

proof fn lemma_append_stage(a: Seq<Action>, b: Seq<Action>, k: int)
    requires
        stages_ordered(a),
        stages_at_most(a, k),
        all_in_stage(b, k),
    ensures
        stages_ordered(a + b),
        stages_at_most(a + b, k),
{
    assert forall|i: int, j: int| 0 <= i < j < (a + b).len() implies stage(#[trigger] (a + b)[i])
        <= stage(#[trigger] (a + b)[j]) by {
        if j < a.len() {
            assert((a + b)[i] == a[i] && (a + b)[j] == a[j]);
        } else if i < a.len() {
            assert((a + b)[i] == a[i] && (a + b)[j] == b[j - a.len()]);
        } else {
            assert((a + b)[i] == b[i - a.len()] && (a + b)[j] == b[j - a.len()]);
        }
    }
    assert forall|i: int| 0 <= i < (a + b).len() implies stage(#[trigger] (a + b)[i]) <= k by {
        if i < a.len() {
            assert((a + b)[i] == a[i]);
        } else {
            assert((a + b)[i] == b[i - a.len()]);
        }
    }
}

proof fn lemma_segment_stages(c: ClockConfig, prior: MainClkState)
    ensures
        all_in_stage(oscillator_steps(c), 0),
        all_in_stage(pll_steps(Pll::System, c.sys_pll), 1),
        all_in_stage(mainclk_steps(prior, c), 2),
        all_in_stage(pll_steps(Pll::Usb, c.usb_pll), 3),
        all_in_stage(usbclk_steps(c), 4),
        all_in_stage(peripheral_steps(c), 5),
{
    let sysosc = if c.sysosc_khz is Some {
        seq![Action::EnableSysosc]
    } else {
        Seq::<Action>::empty()
    };
    let wdosc = match c.wdosc {
        Some(w) => seq![Action::EnableWdosc(w)],
        None => Seq::<Action>::empty(),
    };
    assert(all_in_stage(sysosc + wdosc + seq![Action::WaitOscillatorsStable], 0)) by {
        let s = sysosc + wdosc + seq![Action::WaitOscillatorsStable];
        assert forall|i: int| 0 <= i < s.len() implies stage(#[trigger] s[i]) == 0 by {
            if i < sysosc.len() {
                assert(s[i] == sysosc[i]);
            } else if i < sysosc.len() + wdosc.len() {
                assert(s[i] == wdosc[i - sysosc.len()]);
            } else {
                assert(s[i] == Action::WaitOscillatorsStable);
            }
        }
    }
    let ssp0 = match c.ssp0_pclk_divider {
        Some(d) => seq![Action::SetSsp0Divider(d)],
        None => Seq::<Action>::empty(),
    };
    let ssp1 = match c.ssp1_pclk_divider {
        Some(d) => seq![Action::SetSsp1Divider(d)],
        None => Seq::<Action>::empty(),
    };
    let usart = match c.usart_pclk_divider {
        Some(d) => seq![Action::SetUsartDivider(d)],
        None => Seq::<Action>::empty(),
    };
    assert(all_in_stage(ssp0 + ssp1 + usart, 5)) by {
        let s = ssp0 + ssp1 + usart;
        assert forall|i: int| 0 <= i < s.len() implies stage(#[trigger] s[i]) == 5 by {
            if i < ssp0.len() {
                assert(s[i] == ssp0[i]);
            } else if i < ssp0.len() + ssp1.len() {
                assert(s[i] == ssp1[i - ssp0.len()]);
            } else {
                assert(s[i] == usart[i - ssp0.len() - ssp1.len()]);
            }
        }
    }
}

/// The plan runs phase by phase: oscillators, system PLL, main clock, USB
/// PLL, USB clock, peripheral dividers.
pub proof fn lemma_plan_phases(c: ClockConfig, prior: MainClkState)
    ensures
        stages_ordered(plan_spec(c, prior)),
{
    lemma_segment_stages(c, prior);
    let a = oscillator_steps(c);
    let b = pll_steps(Pll::System, c.sys_pll);
    let m = mainclk_steps(prior, c);
    let u = pll_steps(Pll::Usb, c.usb_pll);
    let k = usbclk_steps(c);
    let p = peripheral_steps(c);
    lemma_append_stage(a, b, 1);
    lemma_append_stage(a + b, m, 2);
    lemma_append_stage(a + b + m, u, 3);
    lemma_append_stage(a + b + m + u, k, 4);
    lemma_append_stage(a + b + m + u + k, p, 5);
}


/// A set of actions that has some action in phase `k`.
pub open spec fn has_stage(s: Seq<Action>, k: int) -> bool {
    exists|i: int| 0 <= i < s.len() && stage(#[trigger] s[i]) == k
}

proof fn lemma_has_stage_split(a: Seq<Action>, b: Seq<Action>, k: int)
    requires
        has_stage(a + b, k),
    ensures
        has_stage(a, k) || has_stage(b, k),
{
    let i = choose|i: int| 0 <= i < (a + b).len() && stage(#[trigger] (a + b)[i]) == k;
    if i < a.len() {
        assert(a[i] == (a + b)[i]);
    } else {
        assert(b[i - a.len()] == (a + b)[i]);
    }
}

proof fn lemma_plan_has_stage(c: ClockConfig, prior: MainClkState, k: int)
    requires
        has_stage(plan_spec(c, prior), k),
    ensures
        k == 0 || k == 2 || k == 4 || k == 5 || (k == 1 && c.sys_pll is Some) || (k == 3
            && c.usb_pll is Some),
{
    lemma_segment_stages(c, prior);
    let a = oscillator_steps(c);
    let b = pll_steps(Pll::System, c.sys_pll);
    let m = mainclk_steps(prior, c);
    let u = pll_steps(Pll::Usb, c.usb_pll);
    let q = usbclk_steps(c);
    let p = peripheral_steps(c);
    lemma_has_stage_split(a + b + m + u + q, p, k);
    if has_stage(a + b + m + u + q, k) {
        lemma_has_stage_split(a + b + m + u, q, k);
        if has_stage(a + b + m + u, k) {
            lemma_has_stage_split(a + b + m, u, k);
            if has_stage(a + b + m, k) {
                lemma_has_stage_split(a + b, m, k);
                if has_stage(a + b, k) {
                    lemma_has_stage_split(a, b, k);
                }
            }
        }
    }
}

proof fn lemma_plan_holds_await(c: ClockConfig, prior: MainClkState, pll: Pll)
    requires
        (pll == Pll::System && c.sys_pll is Some) || (pll == Pll::Usb && c.usb_pll is Some),
    ensures
        exists|i: int|
            0 <= i < plan_spec(c, prior).len() && #[trigger] plan_spec(c, prior)[i]
                == Action::AwaitPllLock(pll),
{
    let a = oscillator_steps(c);
    let b = pll_steps(Pll::System, c.sys_pll);
    let m = mainclk_steps(prior, c);
    let u = pll_steps(Pll::Usb, c.usb_pll);
    let q = usbclk_steps(c);
    let p = peripheral_steps(c);
    let plan = plan_spec(c, prior);
    if pll == Pll::System {
        let i = a.len() + 3int;
        assert((a + b)[i] == b[3]);
        assert((a + b + m)[i] == (a + b)[i]);
        assert((a + b + m + u)[i] == (a + b + m)[i]);
        assert((a + b + m + u + q)[i] == (a + b + m + u)[i]);
        assert(plan[i] == (a + b + m + u + q)[i]);
    } else {
        let i = a.len() + b.len() + m.len() + 3int;
        assert((a + b + m + u)[i] == u[3]);
        assert((a + b + m + u + q)[i] == (a + b + m + u)[i]);
        assert(plan[i] == (a + b + m + u + q)[i]);
    }
}

/// Applying a configuration waits on a PLL's lock exactly when it uses that
/// PLL; every action of a phase comes after every action of an earlier phase.
pub proof fn lemma_plan_structure(c: ClockConfig, prior: MainClkState)
    ensures
        ({
            let plan = plan_spec(c, prior);
            &&& c.sys_pll is Some <==> exists|i: int|
                0 <= i < plan.len() && plan[i] == Action::AwaitPllLock(Pll::System)
            &&& c.usb_pll is Some <==> exists|i: int|
                0 <= i < plan.len() && plan[i] == Action::AwaitPllLock(Pll::Usb)
            &&& forall|i: int, j: int|
                0 <= i < plan.len() && 0 <= j < plan.len() && stage(#[trigger] plan[i]) < stage(
                    #[trigger] plan[j],
                ) ==> i < j
        }),
{
    let plan = plan_spec(c, prior);
    lemma_plan_phases(c, prior);
    if c.sys_pll is Some {
        lemma_plan_holds_await(c, prior, Pll::System);
    }
    if c.usb_pll is Some {
        lemma_plan_holds_await(c, prior, Pll::Usb);
    }
    if exists|i: int| 0 <= i < plan.len() && plan[i] == Action::AwaitPllLock(Pll::System) {
        let i = choose|i: int| 0 <= i < plan.len() && plan[i] == Action::AwaitPllLock(Pll::System);
        assert(stage(plan[i]) == 1);
        lemma_plan_has_stage(c, prior, 1);
    }
    if exists|i: int| 0 <= i < plan.len() && plan[i] == Action::AwaitPllLock(Pll::Usb) {
        let i = choose|i: int| 0 <= i < plan.len() && plan[i] == Action::AwaitPllLock(Pll::Usb);
        assert(stage(plan[i]) == 3);
        lemma_plan_has_stage(c, prior, 3);
    }
}

/// The main clock is switched to the system PLL only after the system PLL
/// has been seen locked, and the peripheral dividers are written only after
/// the main clock has its final source and divider.
pub proof fn lemma_plan_order(c: ClockConfig, prior: MainClkState)
    requires
        c.wf(),
    ensures
        ({
            let plan = plan_spec(c, prior);
            &&& forall|j: int|
                0 <= j < plan.len() && #[trigger] plan[j] == Action::SelectMainClk(MainClkSrc::SysPll)
                    ==> exists|i: int|
                    0 <= i < j && plan[i] == Action::AwaitPllLock(Pll::System)
            &&& forall|i: int, j: int|
                0 <= i < plan.len() && 0 <= j < plan.len() && is_mainclk_action(#[trigger] plan[i])
                    && is_peripheral_action(#[trigger] plan[j]) ==> i < j
        }),
{
    let plan = plan_spec(c, prior);
    lemma_plan_structure(c, prior);
    assert forall|j: int|
        0 <= j < plan.len() && #[trigger] plan[j] == Action::SelectMainClk(
            MainClkSrc::SysPll,
        ) implies exists|i: int| 0 <= i < j && plan[i] == Action::AwaitPllLock(Pll::System) by {
        assert(stage(plan[j]) == 2);
        assert(c.mainclk.source == MainClkSrc::SysPll) by {
            lemma_segment_stages(c, prior);
            lemma_select_in_mainclk_steps(c, prior, j);
        }
        let i = choose|i: int| 0 <= i < plan.len() && plan[i] == Action::AwaitPllLock(Pll::System);
        assert(stage(plan[i]) < stage(plan[j]));
    }
}

proof fn lemma_select_in_mainclk_steps(c: ClockConfig, prior: MainClkState, j: int)
    requires
        0 <= j < plan_spec(c, prior).len(),
        plan_spec(c, prior)[j] == Action::SelectMainClk(MainClkSrc::SysPll),
    ensures
        c.mainclk.source == MainClkSrc::SysPll,
{
    let plan = plan_spec(c, prior);
    lemma_segment_stages(c, prior);
    let a = oscillator_steps(c);
    let b = pll_steps(Pll::System, c.sys_pll);
    let m = mainclk_steps(prior, c);
    let u = pll_steps(Pll::Usb, c.usb_pll);
    let q = usbclk_steps(c);
    let p = peripheral_steps(c);
    let x = a + b + m;
    assert(plan =~= x + (u + q + p));
    assert(stage(plan[j]) == 2);
    if j >= x.len() {
        let t = u + q + p;
        assert(plan[j] == t[j - x.len()]);
        let k = j - x.len();
        if k < u.len() {
            assert(t[k] == u[k]);
        } else if k < u.len() + q.len() {
            assert(t[k] == q[k - u.len()]);
        } else {
            assert(t[k] == p[k - u.len() - q.len()]);
        }
    } else {
        assert(plan[j] == x[j]);
        if j < a.len() + b.len() {
            assert(x[j] == (a + b)[j]);
            if j < a.len() {
                assert((a + b)[j] == a[j]);
            } else {
                assert((a + b)[j] == b[j - a.len()]);
            }
        } else {
            assert(x[j] == m[j - a.len() - b.len()]);
        }
    }
}

/// Between its two writes the main clock never runs faster than the faster
/// of its frequency before and its frequency after the switch.
pub proof fn lemma_no_transient_overclock(c: ClockConfig, prior: MainClkState)
    requires
        c.wf(),
        prior.divider >= 1,
    ensures
        transition_peak_khz(prior, c) <= prior.source_khz as int / prior.divider as int
            || transition_peak_khz(prior, c) <= c.mainclk_spec(),
{
    let new_src = c.mainclk_src_spec()->0;
    let old_src = prior.source_khz as int;
    if divider_first(prior, c) {
        vstd::arithmetic::div_mod::lemma_div_is_ordered(old_src, new_src, c.mainclk.divider as int);
    } else {
        vstd::arithmetic::div_mod::lemma_div_is_ordered(new_src, old_src, prior.divider as int);
    }
}


/// Builds the ordered list of actions that applies `c`, starting from a main
/// clock in state `prior`.
pub fn plan(c: &ClockConfig, prior: MainClkState) -> (r: Vec<Action>)
    requires
        c.wf(),
    ensures
        r@ == plan_spec(*c, prior),
{
    let mut v: Vec<Action> = Vec::new();
    push_oscillator_steps(&mut v, c);
    push_pll_steps(&mut v, Pll::System, c.sys_pll);
    push_mainclk_steps(&mut v, c, prior);
    push_pll_steps(&mut v, Pll::Usb, c.usb_pll);
    push_usbclk_steps(&mut v, c);
    push_peripheral_steps(&mut v, c);
    assert(v@ =~= plan_spec(*c, prior));
    v
}

fn push_oscillator_steps(v: &mut Vec<Action>, c: &ClockConfig)
    ensures
        final(v)@ == old(v)@ + oscillator_steps(*c),
{
    let ghost start = v@;
    if c.sysosc_khz.is_some() || c.wdosc.is_some() {
        if c.sysosc_khz.is_some() {
            v.push(Action::EnableSysosc);
        }
        match c.wdosc {
            Some(w) => v.push(Action::EnableWdosc(w)),
            None => {},
        }
        v.push(Action::WaitOscillatorsStable);
    }
    assert(v@ =~= start + oscillator_steps(*c));
}

fn push_mainclk_steps(v: &mut Vec<Action>, c: &ClockConfig, prior: MainClkState)
    requires
        c.wf(),
    ensures
        final(v)@ == old(v)@ + mainclk_steps(prior, *c),
{
    let ghost start = v@;
    let divider = Action::SetMainClkDivider(c.mainclk.divider);
    let select = Action::SelectMainClk(c.mainclk.source);
    if c.mainclk_src_khz() >= prior.source_khz {
        v.push(divider);
        v.push(select);
    } else {
        v.push(select);
        v.push(divider);
    }
    assert(v@ =~= start + mainclk_steps(prior, *c));
}

fn push_usbclk_steps(v: &mut Vec<Action>, c: &ClockConfig)
    ensures
        final(v)@ == old(v)@ + usbclk_steps(*c),
{
    let ghost start = v@;
    match c.usb_pclk {
        Some(u) => {
            v.push(Action::SelectUsbClk(u.source));
            v.push(Action::SetUsbClkDivider(u.divider));
        },
        None => {},
    }
    assert(v@ =~= start + usbclk_steps(*c));
}

fn push_peripheral_steps(v: &mut Vec<Action>, c: &ClockConfig)
    ensures
        final(v)@ == old(v)@ + peripheral_steps(*c),
{
    let ghost start = v@;
    match c.ssp0_pclk_divider {
        Some(d) => v.push(Action::SetSsp0Divider(d)),
        None => {},
    }
    match c.ssp1_pclk_divider {
        Some(d) => v.push(Action::SetSsp1Divider(d)),
        None => {},
    }
    match c.usart_pclk_divider {
        Some(d) => v.push(Action::SetUsartDivider(d)),
        None => {},
    }
    assert(v@ =~= start + peripheral_steps(*c));
}

fn push_pll_steps(v: &mut Vec<Action>, pll: Pll, cfg: Option<PllConfig>)
    ensures
        final(v)@ == old(v)@ + pll_steps(pll, cfg),
{
    match cfg {
        Some(c) => {
            v.push(Action::SelectPllSource(pll, c.source));
            v.push(Action::ProgramPll(pll, c.m, c.p));
            v.push(Action::EnablePll(pll));
            v.push(Action::AwaitPllLock(pll));
        },
        None => {},
    }
    assert(final(v)@ =~= old(v)@ + pll_steps(pll, cfg));
}

/// What the hardware showed after an action.
#[derive(Clone, Copy, Debug, PartialEq, Eq, Structural)]
pub enum Outcome {
    /// The action was carried out.
    Done,
    /// The lock status a PLL read.
    LockStatus(bool),
}

/// What the sequencer asks for next.
#[derive(Clone, Copy, Debug, PartialEq, Eq, Structural)]
pub enum Command {
    Perform(Action),
    /// Every action has been carried out.
    Finished,
    /// The sequence stopped; nothing already written is undone.
    Abort(ClockError),
}

/// The error for a PLL that did not lock in time.
pub open spec fn timeout_error(pll: Pll) -> ClockError {
    match pll {
        Pll::System => ClockError::SysPllLockTimedOut,
        Pll::Usb => ClockError::UsbPllLockTimedOut,
    }
}

/// The state of a sequencer: its plan, how many actions are done, how many
/// lock readings of the current PLL came back unlocked, the budget of such
/// readings, and the error it stopped on.
pub struct SequencerView {
    pub plan: Seq<Action>,
    pub pos: int,
    pub polls: int,
    pub max_polls: int,
    pub failed: Option<ClockError>,
}

impl SequencerView {
    pub open spec fn wf(self) -> bool {
        &&& 0 <= self.pos <= self.plan.len()
        &&& 0 <= self.polls <= self.max_polls
        &&& self.failed is Some ==> self.pos < self.plan.len()
    }

    /// What the sequencer asks for in this state.
    pub open spec fn command(self) -> Command {
        match self.failed {
            Some(e) => Command::Abort(e),
            None => if self.pos < self.plan.len() {
                Command::Perform(self.plan[self.pos])
            } else {
                Command::Finished
            },
        }
    }

    /// The state after the current action showed `outcome`. A lock wait
    /// moves on only on a locked reading; it stops with a timeout once
    /// `max_polls` readings (at least one) came back unlocked.
    pub open spec fn after(self, outcome: Outcome) -> SequencerView {
        if self.failed is Some || self.pos >= self.plan.len() {
            self
        } else {
            match self.plan[self.pos] {
                Action::AwaitPllLock(pll) => if outcome == Outcome::LockStatus(true) {
                    SequencerView { pos: self.pos + 1, polls: 0, ..self }
                } else if self.polls + 1 >= self.max_polls {
                    SequencerView { failed: Some(timeout_error(pll)), ..self }
                } else {
                    SequencerView { polls: self.polls + 1, ..self }
                },
                _ => SequencerView { pos: self.pos + 1, polls: 0, ..self },
            }
        }
    }
}

/// Walks the plan of a configuration one action at a time. The caller
/// performs each action it asks for and reports what the hardware showed.
pub struct Sequencer {
    plan: Vec<Action>,
    pos: usize,
    polls: u32,
    max_polls: u32,
    failed: Option<ClockError>,
}

impl View for Sequencer {
    type V = SequencerView;

    closed spec fn view(&self) -> SequencerView {
        SequencerView {
            plan: self.plan@,
            pos: self.pos as int,
            polls: self.polls as int,
            max_polls: self.max_polls as int,
            failed: self.failed,
        }
    }
}

impl Sequencer {
    /// A sequencer for applying `c` over a main clock in state `prior`, which
    /// allows each PLL `max_polls` unlocked readings before it times out.
    pub fn new(c: &ClockConfig, prior: MainClkState, max_polls: u32) -> (r: Sequencer)
        requires
            c.wf(),
        ensures
            r@ == (SequencerView {
                plan: plan_spec(*c, prior),
                pos: 0,
                polls: 0,
                max_polls: max_polls as int,
                failed: None,
            }),
            r@.wf(),
    {
        Sequencer { plan: plan(c, prior), pos: 0, polls: 0, max_polls, failed: None }
    }

    /// What to do next.
    pub fn current(&self) -> (r: Command)
        requires
            self@.wf(),
        ensures
            r == self@.command(),
    {
        match self.failed {
            Some(e) => Command::Abort(e),
            None => if self.pos < self.plan.len() {
                Command::Perform(self.plan[self.pos])
            } else {
                Command::Finished
            },
        }
    }

    /// Records what the hardware showed after the current action.
    pub fn report(&mut self, outcome: Outcome)
        requires
            old(self)@.wf(),
        ensures
            final(self)@ == old(self)@.after(outcome),
            final(self)@.wf(),
    {
        if self.failed.is_some() || self.pos >= self.plan.len() {
            return;
        }
        match self.plan[self.pos] {
            Action::AwaitPllLock(pll) => {
                if outcome == Outcome::LockStatus(true) {
                    self.pos = self.pos + 1;
                    self.polls = 0;
                } else if self.polls >= self.max_polls || self.max_polls - self.polls <= 1 {
                    self.failed = Some(
                        match pll {
                            Pll::System => ClockError::SysPllLockTimedOut,
                            Pll::Usb => ClockError::UsbPllLockTimedOut,
                        },
                    );
                } else {
                    self.polls = self.polls + 1;
                }
            },
            _ => {
                self.pos = self.pos + 1;
                self.polls = 0;
            },
        }
    }
}

} // verus!
