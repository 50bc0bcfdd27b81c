//! Clock-tree configuration for the LPC11Uxx family: a declarative model of
//! oscillators, PLLs, multiplexers and dividers, the frequencies it derives,
//! a PLL parameter search, and the ordered hardware programming sequence.
use vstd::prelude::*;

pub mod clocks;
pub mod gpio;
pub mod pll;
pub mod registers;
pub mod sequencer;
pub mod storage;

use crate::clocks::{irc_12mhz_spec, ClockConfig};

verus! {

/// Settings for bringing up the chip.
#[non_exhaustive]
pub struct Config {
    /// The clock tree to apply.
    pub clocks: ClockConfig,
}

impl Config {
    /// The main clock from the internal RC oscillator, nothing else enabled.
    pub fn new() -> (r: Config)
        ensures
            r.clocks == irc_12mhz_spec(),
            r.clocks.wf(),
    {
        Config { clocks: ClockConfig::irc_12mhz() }
    }
}

impl Default for Config {
    fn default() -> (r: Config)
        ensures
            r.clocks == irc_12mhz_spec(),
    {
        Config::new()
    }
}

} // verus!
