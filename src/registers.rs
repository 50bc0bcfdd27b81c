//! A model of the clock registers, and `apply`, which runs the sequencer
//! against it. The model answers each PLL's lock reading from a fixed flag,
//! so it can stand in for hardware whose PLL locks or never does.
use vstd::prelude::*;

use crate::clocks::{ClockConfig, ClockError, ClockFrequencies, MainClkSrc, UsbClkSrc, WdOscConfig};
use crate::pll::PllClkSrc;
use crate::sequencer::{
    lemma_plan_structure, plan_spec, stage, timeout_error, Action, Command, MainClkState,
    Outcome, Pll, Sequencer, SequencerView,
};

verus! {

/// The registers of one PLL, and whether it reads locked.
#[derive(Clone, Copy, Debug, PartialEq, Eq, Structural)]
pub struct PllRegisters {
    pub source: PllClkSrc,
    pub m: u8,
    pub p: u8,
    pub enabled: bool,
    pub locks: bool,
}

/// The clock registers.
#[derive(Clone, Copy, Debug, PartialEq, Eq, Structural)]
pub struct ClockRegisters {
    pub sysosc_enabled: bool,
    pub wdosc: Option<WdOscConfig>,
    pub sys_pll: PllRegisters,
    pub usb_pll: PllRegisters,
    pub mainclk_source: MainClkSrc,
    pub mainclk_divider: u8,
    pub usbclk_source: UsbClkSrc,
    pub usbclk_divider: u8,
    pub ssp0_divider: u8,
    pub ssp1_divider: u8,
    pub usart_divider: u8,
}

impl ClockRegisters {
    /// The registers of `pll`.
    pub open spec fn pll(self, pll: Pll) -> PllRegisters {
        match pll {
            Pll::System => self.sys_pll,
            Pll::Usb => self.usb_pll,
        }
    }

    pub open spec fn with_pll(self, pll: Pll, r: PllRegisters) -> ClockRegisters {
        match pll {
            Pll::System => ClockRegisters { sys_pll: r, ..self },
            Pll::Usb => ClockRegisters { usb_pll: r, ..self },
        }
    }

    /// The registers after `a` is carried out.
    pub open spec fn after(self, a: Action) -> ClockRegisters {
        match a {
            Action::EnableSysosc => ClockRegisters { sysosc_enabled: true, ..self },
            Action::EnableWdosc(w) => ClockRegisters { wdosc: Some(w), ..self },
            Action::WaitOscillatorsStable => self,
            Action::SelectPllSource(pll, source) => self.with_pll(
                pll,
                PllRegisters { source, ..self.pll(pll) },
            ),
            Action::ProgramPll(pll, m, p) => self.with_pll(pll, PllRegisters { m, p, ..self.pll(pll) }),
            Action::EnablePll(pll) => self.with_pll(
                pll,
                PllRegisters { enabled: true, ..self.pll(pll) },
            ),
            Action::AwaitPllLock(_) => self,
            Action::SetMainClkDivider(d) => ClockRegisters { mainclk_divider: d, ..self },
            Action::SelectMainClk(source) => ClockRegisters { mainclk_source: source, ..self },
            Action::SelectUsbClk(source) => ClockRegisters { usbclk_source: source, ..self },
            Action::SetUsbClkDivider(d) => ClockRegisters { usbclk_divider: d, ..self },
            Action::SetSsp0Divider(d) => ClockRegisters { ssp0_divider: d, ..self },
            Action::SetSsp1Divider(d) => ClockRegisters { ssp1_divider: d, ..self },
            Action::SetUsartDivider(d) => ClockRegisters { usart_divider: d, ..self },
        }
    }

    /// What carrying out `a` shows: the lock flag for a lock wait.
    pub open spec fn outcome(self, a: Action) -> Outcome {
        match a {
            Action::AwaitPllLock(pll) => Outcome::LockStatus(self.pll(pll).locks),
            _ => Outcome::Done,
        }
    }

    /// The registers after every action of `s`, in order.
    pub open spec fn after_all(self, s: Seq<Action>) -> ClockRegisters
        decreases s.len(),
    {
        if s.len() == 0 {
            self
        } else {
            self.after_all(s.drop_last()).after(s.last())
        }
    }

    /// The registers after reset: main clock from the internal RC oscillator,
    /// everything else off; `sys_pll_locks` and `usb_pll_locks` say whether
    /// each PLL reads locked.
    pub fn reset(sys_pll_locks: bool, usb_pll_locks: bool) -> (r: ClockRegisters)
        ensures
            r == (ClockRegisters {
                sysosc_enabled: false,
                wdosc: None,
                sys_pll: PllRegisters {
                    source: PllClkSrc::Irc,
                    m: 1,
                    p: 1,
                    enabled: false,
                    locks: sys_pll_locks,
                },
                usb_pll: PllRegisters {
                    source: PllClkSrc::Irc,
                    m: 1,
                    p: 1,
                    enabled: false,
                    locks: usb_pll_locks,
                },
                mainclk_source: MainClkSrc::Irc,
                mainclk_divider: 1,
                usbclk_source: UsbClkSrc::UsbPll,
                usbclk_divider: 1,
                ssp0_divider: 0,
                ssp1_divider: 0,
                usart_divider: 0,
            }),
    {
        let pll = PllRegisters {
            source: PllClkSrc::Irc,
            m: 1,
            p: 1,
            enabled: false,
            locks: sys_pll_locks,
        };
        ClockRegisters {
            sysosc_enabled: false,
            wdosc: None,
            sys_pll: pll,
            usb_pll: PllRegisters { locks: usb_pll_locks, ..pll },
            mainclk_source: MainClkSrc::Irc,
            mainclk_divider: 1,
            usbclk_source: UsbClkSrc::UsbPll,
            usbclk_divider: 1,
            ssp0_divider: 0,
            ssp1_divider: 0,
            usart_divider: 0,
        }
    }

    /// Carries out `a`.
    pub fn perform(&mut self, a: Action) -> (r: Outcome)
        ensures
            *final(self) == old(self).after(a),
            r == old(self).outcome(a),
    {
        match a {
            Action::EnableSysosc => self.sysosc_enabled = true,
            Action::EnableWdosc(w) => self.wdosc = Some(w),
            Action::WaitOscillatorsStable => {},
            Action::SelectPllSource(pll, source) => match pll {
                Pll::System => self.sys_pll.source = source,
                Pll::Usb => self.usb_pll.source = source,
            },
            Action::ProgramPll(pll, m, p) => match pll {
                Pll::System => {
                    self.sys_pll.m = m;
                    self.sys_pll.p = p;
                },
                Pll::Usb => {
                    self.usb_pll.m = m;
                    self.usb_pll.p = p;
                },
            },
            Action::EnablePll(pll) => match pll {
                Pll::System => self.sys_pll.enabled = true,
                Pll::Usb => self.usb_pll.enabled = true,
            },
            Action::AwaitPllLock(pll) => {
                return Outcome::LockStatus(
                    match pll {
                        Pll::System => self.sys_pll.locks,
                        Pll::Usb => self.usb_pll.locks,
                    },
                );
            },
            Action::SetMainClkDivider(d) => self.mainclk_divider = d,
            Action::SelectMainClk(source) => self.mainclk_source = source,
            Action::SelectUsbClk(source) => self.usbclk_source = source,
            Action::SetUsbClkDivider(d) => self.usbclk_divider = d,
            Action::SetSsp0Divider(d) => self.ssp0_divider = d,
            Action::SetSsp1Divider(d) => self.ssp1_divider = d,
            Action::SetUsartDivider(d) => self.usart_divider = d,
        }
        Outcome::Done
    }
}

proof fn lemma_after_all_step(r: ClockRegisters, s: Seq<Action>, k: int)
    requires
        0 <= k < s.len(),
    ensures
        r.after_all(s.take(k + 1)) == r.after_all(s.take(k)).after(s[k]),
{
    assert(s.take(k + 1).drop_last() =~= s.take(k));
}

proof fn lemma_prefix_keeps_mainclk(r: ClockRegisters, s: Seq<Action>)
    requires
        forall|i: int| 0 <= i < s.len() ==> stage(#[trigger] s[i]) != 2,
    ensures
        r.after_all(s).mainclk_source == r.mainclk_source,
        r.after_all(s).mainclk_divider == r.mainclk_divider,
    decreases s.len(),
{
    if s.len() > 0 {
        let t = s.drop_last();
        assert forall|i: int| 0 <= i < t.len() implies stage(#[trigger] t[i]) != 2 by {
            assert(t[i] == s[i]);
        }
        lemma_prefix_keeps_mainclk(r, t);
        assert(stage(s[s.len() - 1]) != 2);
    }
}

/// What holds while `apply` runs: the registers hold the actions done so
/// far, every lock wait passed so far read locked, and a stop is a lock wait
/// whose PLL does not lock.
#[verifier::opaque]
pub open spec fn run_inv(start: ClockRegisters, v: SequencerView, regs: ClockRegisters) -> bool {
    &&& regs == start.after_all(v.plan.take(v.pos))
    &&& regs.sys_pll.locks == start.sys_pll.locks
    &&& regs.usb_pll.locks == start.usb_pll.locks
    &&& forall|i: int|
        0 <= i < v.pos ==> (#[trigger] v.plan[i] matches Action::AwaitPllLock(pll)
            ==> start.pll(pll).locks)
    &&& v.failed matches Some(e) ==> (v.plan[v.pos] matches Action::AwaitPllLock(pll) && e
        == timeout_error(pll) && !start.pll(pll).locks)
}

proof fn lemma_run_start(start: ClockRegisters, v: SequencerView)
    requires
        v.pos == 0,
        v.failed is None,
    ensures
        run_inv(start, v, start),
{
    reveal(run_inv);
    assert(v.plan.take(0) =~= Seq::<Action>::empty());
}

proof fn lemma_run_step(start: ClockRegisters, v: SequencerView, regs: ClockRegisters)
    requires
        v.wf(),
        run_inv(start, v, regs),
        v.failed is None,
        v.pos < v.plan.len(),
    ensures
        run_inv(start, v.after(regs.outcome(v.plan[v.pos])), regs.after(v.plan[v.pos])),
{
    reveal(run_inv);
    lemma_after_all_step(start, v.plan, v.pos);
    let w = v.after(regs.outcome(v.plan[v.pos]));
    assert forall|i: int| 0 <= i < w.pos implies (#[trigger] w.plan[i] matches Action::AwaitPllLock(
        pll,
    ) ==> start.pll(pll).locks) by {
        if i < v.pos {
        }
    }
}

proof fn lemma_run_finished(c: ClockConfig, prior: MainClkState, start: ClockRegisters, v: SequencerView, regs: ClockRegisters)
    requires
        run_inv(start, v, regs),
        v.plan == plan_spec(c, prior),
        v.pos == v.plan.len(),
    ensures
        regs == start.after_all(v.plan),
        c.sys_pll is Some ==> start.sys_pll.locks,
        c.usb_pll is Some ==> start.usb_pll.locks,
{
    reveal(run_inv);
    lemma_plan_structure(c, prior);
    assert(v.plan.take(v.pos) =~= v.plan);
    if c.sys_pll is Some {
        let i = choose|i: int| 0 <= i < v.plan.len() && v.plan[i] == Action::AwaitPllLock(Pll::System);
        assert(v.plan[i] matches Action::AwaitPllLock(pll));
    }
    if c.usb_pll is Some {
        let i = choose|i: int| 0 <= i < v.plan.len() && v.plan[i] == Action::AwaitPllLock(Pll::Usb);
        assert(v.plan[i] matches Action::AwaitPllLock(pll));
    }
}

proof fn lemma_run_abort(c: ClockConfig, prior: MainClkState, start: ClockRegisters, v: SequencerView, regs: ClockRegisters)
    requires
        run_inv(start, v, regs),
        v.wf(),
        v.plan == plan_spec(c, prior),
        v.failed is Some,
    ensures
        ({
            let e = v.failed->0;
            &&& (e == ClockError::SysPllLockTimedOut && c.sys_pll is Some && !start.sys_pll.locks)
                || (e == ClockError::UsbPllLockTimedOut && c.usb_pll is Some && !start.usb_pll.locks)
            &&& c.sys_pll is Some && !start.sys_pll.locks ==> e == ClockError::SysPllLockTimedOut
            &&& e == ClockError::SysPllLockTimedOut ==> regs.mainclk_source == start.mainclk_source
                && regs.mainclk_divider == start.mainclk_divider
        }),
{
    reveal(run_inv);
    lemma_plan_structure(c, prior);
    let plan = v.plan;
    let pos = v.pos;
    let e = v.failed->0;
    let pll = plan[pos]->AwaitPllLock_0;
    assert(plan[pos] == Action::AwaitPllLock(pll));
    if c.sys_pll is Some && !start.sys_pll.locks && pll == Pll::Usb {
        let i = choose|i: int| 0 <= i < plan.len() && plan[i] == Action::AwaitPllLock(Pll::System);
        assert(stage(plan[i]) < stage(plan[pos]));
        assert(plan[i] matches Action::AwaitPllLock(q));
    }
    if e == ClockError::SysPllLockTimedOut {
        assert(pll == Pll::System);
        assert forall|i: int| 0 <= i < plan.take(pos).len() implies stage(
            #[trigger] plan.take(pos)[i],
        ) != 2 by {
            assert(plan.take(pos)[i] == plan[i]);
            assert(stage(plan[pos]) == 1);
            if stage(plan[i]) == 2 {
                assert(stage(plan[pos]) < stage(plan[i]));
            }
        }
        lemma_prefix_keeps_mainclk(start, plan.take(pos));
    }
}

/// Applies `c` to the registers through the sequencer, starting from a main
/// clock in state `prior` and allowing each PLL `max_polls` unlocked
/// readings. On success the registers hold every action of the plan and the
/// derived frequencies come back; a PLL that never locks stops the sequence
/// with its timeout, and a system PLL timeout leaves the main clock as it was.
pub fn apply(c: &ClockConfig, prior: MainClkState, regs: &mut ClockRegisters, max_polls: u32) -> (r:
    Result<ClockFrequencies, ClockError>)
    requires
        c.wf(),
    ensures
        r matches Ok(f) ==> c.derives(f) && *final(regs) == old(regs).after_all(plan_spec(*c, prior)),
        r matches Err(e) ==> (e == ClockError::SysPllLockTimedOut && c.sys_pll is Some
            && !old(regs).sys_pll.locks) || (e == ClockError::UsbPllLockTimedOut && c.usb_pll is Some
            && !old(regs).usb_pll.locks),
        c.sys_pll is Some && !old(regs).sys_pll.locks ==> r == Err::<ClockFrequencies, ClockError>(
            ClockError::SysPllLockTimedOut,
        ),
        (c.sys_pll is None || old(regs).sys_pll.locks) && (c.usb_pll is None || old(regs).usb_pll.locks)
            ==> r is Ok,
        r == Err::<ClockFrequencies, ClockError>(ClockError::SysPllLockTimedOut) ==> {
            &&& final(regs).mainclk_source == old(regs).mainclk_source
            &&& final(regs).mainclk_divider == old(regs).mainclk_divider
        },
{
    let ghost start = *regs;
    let ghost plan = plan_spec(*c, prior);
    let mut s = Sequencer::new(c, prior, max_polls);
    proof {
        lemma_run_start(start, s@);
    }
    loop
        invariant
            c.wf(),
            start == *old(regs),
            s@.wf(),
            s@.plan == plan,
            plan == plan_spec(*c, prior),
            s@.max_polls == max_polls,
            run_inv(start, s@, *regs),
        decreases plan.len() - s@.pos, (if s@.failed is None {
            1int
        } else {
            0int
        }), max_polls - s@.polls,
    {
        match s.current() {
            Command::Perform(a) => {
                proof {
                    lemma_run_step(start, s@, *regs);
                }
                let o = regs.perform(a);
                s.report(o);
            },
            Command::Finished => {
                proof {
                    lemma_run_finished(*c, prior, start, s@, *regs);
                }
                return Ok(c.frequencies());
            },
            Command::Abort(e) => {
                proof {
                    lemma_run_abort(*c, prior, start, s@, *regs);
                }
                return Err(e);
            },
        }
    }
}

} // verus!
