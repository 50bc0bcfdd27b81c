//! PLL parameter search.
//!
//! The PLL multiplies its input by `M` (1 to 32). Its current-controlled
//! oscillator runs at `2 * P * output`, where the post-divider `P` is one of
//! 1, 2, 4 or 8, and must stay within 156 MHz to 320 MHz.
use vstd::prelude::*;

verus! {

/// Lowest allowed frequency of the PLL's internal oscillator, in kHz.
pub const CCO_MIN_KHZ: u32 = 156_000;

/// Highest allowed frequency of the PLL's internal oscillator, in kHz.
pub const CCO_MAX_KHZ: u32 = 320_000;

/// Largest value of the multiplier register.
pub const PLL_M_MAX: u32 = 32;

/// Largest output divider that `calculate_with_divider` tries.
pub const OUTPUT_DIVIDER_MAX: u8 = 255;

/// Reference clock of a PLL.
#[derive(Clone, Copy, Debug, PartialEq, Eq, Structural)]
pub enum PllClkSrc {
    /// Internal RC oscillator.
    Irc,
    /// Crystal (system) oscillator.
    Sysosc,
}

/// Settings of one PLL: its input, multiplier `m` and post-divider `p`.
#[derive(Clone, Copy, Debug, PartialEq, Eq, Structural)]
pub struct PllConfig {
    pub source: PllClkSrc,
    pub m: u8,
    pub p: u8,
}

/// `p` is one of the post-divider values the hardware offers.
pub open spec fn is_post_divider(p: int) -> bool {
    p == 1 || p == 2 || p == 4 || p == 8
}

/// With post-divider `p`, an output of `out_khz` keeps the internal oscillator in band.
pub open spec fn cco_in_band(p: int, out_khz: int) -> bool {
    CCO_MIN_KHZ <= 2 * p * out_khz <= CCO_MAX_KHZ
}

/// The smallest post-divider that keeps the internal oscillator in band.
pub open spec fn least_post_divider(out_khz: int) -> Option<int> {
    if cco_in_band(1, out_khz) {
        Some(1)
    } else if cco_in_band(2, out_khz) {
        Some(2)
    } else if cco_in_band(4, out_khz) {
        Some(4)
    } else if cco_in_band(8, out_khz) {
        Some(8)
    } else {
        None
    }
}

/// `target_khz` is reached from `input_khz` by an exact multiplier in range,
/// with some post-divider that keeps the internal oscillator in band.
pub open spec fn solvable(input_khz: int, target_khz: int) -> bool {
    &&& 0 < input_khz <= target_khz
    &&& target_khz % input_khz == 0
    &&& target_khz / input_khz <= PLL_M_MAX
    &&& least_post_divider(target_khz) is Some
}

/// The settings that reach `target_khz` from `input_khz`, when `solvable`.
pub open spec fn solution(source: PllClkSrc, input_khz: int, target_khz: int) -> PllConfig {
    PllConfig {
        source,
        m: (target_khz / input_khz) as u8,
        p: least_post_divider(target_khz)->0 as u8,
    }
}

/// What `PllConfig::calculate` returns.
pub open spec fn calculate_spec(source: PllClkSrc, input_khz: int, target_khz: int) -> Option<
    PllConfig,
> {
    if solvable(input_khz, target_khz) {
        Some(solution(source, input_khz, target_khz))
    } else {
        None
    }
}

/// `target_khz * d` is reachable from `input_khz`.
pub open spec fn solvable_with_divider(input_khz: int, target_khz: int, d: int) -> bool {
    solvable(input_khz, target_khz * d)
}

/// The output divider that `calculate_with_divider` settles on: the first `d`
/// in 1..=255 for which `target_khz * d` is reachable.
pub open spec fn is_first_divider(input_khz: int, target_khz: int, d: int) -> bool {
    &&& 1 <= d <= OUTPUT_DIVIDER_MAX
    &&& solvable_with_divider(input_khz, target_khz, d)
    &&& forall|e: int| 1 <= e < d ==> !#[trigger] solvable_with_divider(input_khz, target_khz, e)
}

/// Some output divider in 1..=255 makes `target_khz` reachable.
pub open spec fn reachable_with_divider(input_khz: int, target_khz: int) -> bool {
    exists|d: int| 1 <= d <= OUTPUT_DIVIDER_MAX && #[trigger] solvable_with_divider(input_khz, target_khz, d)
}

proof fn lemma_too_fast_unsolvable(input_khz: int, target_khz: int)
    requires
        target_khz > CCO_MAX_KHZ / 2,
    ensures
        !solvable(input_khz, target_khz),
{
    assert(least_post_divider(target_khz) is None) by (nonlinear_arith)
        requires
            target_khz > CCO_MAX_KHZ / 2,
    ;
}

/// A solution multiplies exactly, keeps the internal oscillator in band, and
/// uses the smallest post-divider that does so.
pub proof fn lemma_solution_exact(source: PllClkSrc, input_khz: int, target_khz: int)
    requires
        solvable(input_khz, target_khz),
    ensures
        ({
            let c = solution(source, input_khz, target_khz);
            &&& input_khz * c.m == target_khz
            &&& 1 <= c.m <= PLL_M_MAX
            &&& is_post_divider(c.p as int)
            &&& cco_in_band(c.p as int, target_khz)
            &&& forall|q: int| is_post_divider(q) && q < c.p ==> !cco_in_band(q, target_khz)
        }),
{
    let m = target_khz / input_khz;
    assert(input_khz * m == target_khz) by (nonlinear_arith)
        requires
            input_khz > 0,
            target_khz % input_khz == 0,
            m == target_khz / input_khz,
    ;
    assert(m >= 1) by (nonlinear_arith)
        requires
            0 < input_khz <= target_khz,
            m == target_khz / input_khz,
    ;
}

/// The PLL never divides: a target below the input is never reached.
pub proof fn lemma_never_divides(input_khz: int, target_khz: int)
    requires
        input_khz > target_khz,
    ensures
        !solvable(input_khz, target_khz),
{
}

fn in_band(p: u32, out_khz: u32) -> (r: bool)
    requires
        p <= 16,
        out_khz <= CCO_MAX_KHZ / 2,
    ensures
        r == cco_in_band(p as int, out_khz as int),
{
    assert(2 * p * out_khz <= 16 * CCO_MAX_KHZ) by (nonlinear_arith)
        requires
            p <= 16,
            out_khz <= CCO_MAX_KHZ / 2,
    ;
    let cco = 2 * p * out_khz;
    CCO_MIN_KHZ <= cco && cco <= CCO_MAX_KHZ
}

impl PllConfig {
    /// Finds the multiplier and the smallest post-divider that turn
    /// `input_khz` into exactly `target_khz`.
    pub fn calculate(source: PllClkSrc, input_khz: u32, target_khz: u32) -> (r: Option<PllConfig>)
        ensures
            r == calculate_spec(source, input_khz as int, target_khz as int),
            r matches Some(c) ==> {
                &&& c.source == source
                &&& input_khz * c.m == target_khz
                &&& cco_in_band(c.p as int, target_khz as int)
                &&& forall|q: int| is_post_divider(q) && q < c.p ==> !cco_in_band(q, target_khz as int)
            },
            input_khz > target_khz ==> r is None,
    {
        if input_khz == 0 || input_khz > target_khz {
            return None;
        }
        let m = target_khz / input_khz;
        let rem = target_khz % input_khz;
        assert(m >= 1) by (nonlinear_arith)
            requires
                0 < input_khz <= target_khz,
                m == target_khz / input_khz,
        ;
        if rem != 0 || m == 0 || m > PLL_M_MAX {
            return None;
        }
        if target_khz > CCO_MAX_KHZ / 2 {
            proof {
                lemma_too_fast_unsolvable(input_khz as int, target_khz as int);
            }
            return None;
        }
        let mut p: u32 = 1;
        while p <= 8
            invariant
                p == 1 || p == 2 || p == 4 || p == 8 || p == 16,
                target_khz <= CCO_MAX_KHZ / 2,
                0 < input_khz <= target_khz,
                target_khz % input_khz == 0,
                m == target_khz / input_khz,
                1 <= m <= PLL_M_MAX,
                forall|q: int| is_post_divider(q) && q < p ==> !#[trigger] cco_in_band(q, target_khz as int),
            decreases 16 - p,
        {
            if in_band(p, target_khz) {
                assert(least_post_divider(target_khz as int) == Some(p as int)) by {
                    assert(is_post_divider(1) && is_post_divider(2) && is_post_divider(4));
                }
                proof {
                    lemma_solution_exact(source, input_khz as int, target_khz as int);
                }
                return Some(PllConfig { source, m: m as u8, p: p as u8 });
            }
            p = p * 2;
        }
        assert(is_post_divider(1) && is_post_divider(2) && is_post_divider(4) && is_post_divider(8));
        None
    }

    /// Finds the first output divider `d` in 1..=255 for which the PLL can
    /// reach exactly `target_khz * d`, with the settings that do so.
    pub fn calculate_with_divider(source: PllClkSrc, input_khz: u32, target_khz: u32) -> (r: Option<
        (PllConfig, u8),
    >)
        ensures
            r is Some <==> reachable_with_divider(input_khz as int, target_khz as int),
            r matches Some((c, d)) ==> {
                &&& is_first_divider(input_khz as int, target_khz as int, d as int)
                &&& c == solution(source, input_khz as int, target_khz as int * d)
                &&& calculate_spec(source, input_khz as int, target_khz as int * d) == Some(c)
            },
    {
        let mut d: u8 = 1;
        loop
            invariant
                1 <= d <= OUTPUT_DIVIDER_MAX,
                forall|e: int|
                    1 <= e < d ==> !#[trigger] solvable_with_divider(
                        input_khz as int,
                        target_khz as int,
                        e,
                    ),
            decreases OUTPUT_DIVIDER_MAX - d,
        {
            assert(target_khz as int * d as int <= 0xffff_ffff * 255) by (nonlinear_arith)
                requires
                    d <= 255,
            ;
            let scaled: u64 = target_khz as u64 * d as u64;
            if scaled <= CCO_MAX_KHZ as u64 / 2 {
                let found = PllConfig::calculate(source, input_khz, scaled as u32);
                if let Some(c) = found {
                    assert(solvable_with_divider(input_khz as int, target_khz as int, d as int));
                    return Some((c, d));
                }
            } else {
                proof {
                    lemma_too_fast_unsolvable(input_khz as int, scaled as int);
                }
            }
            assert(!solvable_with_divider(input_khz as int, target_khz as int, d as int));
            if d == OUTPUT_DIVIDER_MAX {
                return None;
            }
            d = d + 1;
        }
    }
}


impl PllConfig {
    /// The fields of the PLL control register: MSEL holds `m - 1` and PSEL
    /// holds the base-2 logarithm of `p`.
    pub fn ctrl_fields(&self) -> (r: (u8, u8))
        requires
            1 <= self.m <= PLL_M_MAX,
            is_post_divider(self.p as int),
        ensures
            r.0 == self.m - 1,
            vstd::arithmetic::power2::pow2(r.1 as nat) == self.p,
    {
        proof {
            vstd::arithmetic::power2::lemma2_to64();
        }
        let psel: u8 = if self.p == 1 {
            0
        } else if self.p == 2 {
            1
        } else if self.p == 4 {
            2
        } else {
            3
        };
        (self.m - 1, psel)
    }
}

} // verus!
