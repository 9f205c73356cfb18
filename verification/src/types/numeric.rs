//! The arithmetic of the game, stated over mathematical integers and computed
//! without overflow: where a value is floored or rounded up, and where a
//! result that no `u32` can hold is cut off at the largest one.

use vstd::prelude::*;
use vstd::arithmetic::div_mod::lemma_div_multiples_vanish_quotient;
use super::enums::StepState;

verus! {

/// The single-precision number nearest to one hundredth is
/// `HUNDREDTH_NUM / HUNDREDTH_DEN`, a little less than 0.01. The game scales a
/// base value by a percentage through this number, so that 80 percent of 255
/// is 203 and not 204.
pub const HUNDREDTH_NUM: u64 = 10737418;

/// See `HUNDREDTH_NUM`. This is two to the power of thirty.
pub const HUNDREDTH_DEN: u64 = 1073741824;

/// `x` cut off to what a `u32` can hold.
pub open spec fn clamp_u32(x: int) -> u32 {
    if x < 0 {
        0
    } else if x > u32::MAX {
        u32::MAX
    } else {
        x as u32
    }
}

/// `x` cut off to what an `i32` can hold.
pub open spec fn clamp_i32(x: int) -> i32 {
    if x < i32::MIN {
        i32::MIN
    } else if x > i32::MAX {
        i32::MAX
    } else {
        x as i32
    }
}

/// `a / b`, rounded up.
pub open spec fn ceil_div(a: int, b: int) -> int
    recommends
        a >= 0,
        b > 0,
{
    (a + b - 1) / b
}

/// The base value of progress (with `offset` 2, from craftsmanship) or of
/// quality (with `offset` 35, from control):
/// `stat * 10 / divider + offset`, floored. When `scaled` the unfloored
/// value is first multiplied by `modifier` percent, through the
/// single-precision hundredth, and floored then.
///
/// A divider of zero makes the quotient unbounded: the result is the largest
/// `u32` where the stat (and the modifier, when it applies) is not zero, and
/// zero otherwise.
pub open spec fn base_value(stat: u32, divider: u32, offset: u8, scaled: bool, modifier: u32) -> u32 {
    if divider == 0 {
        if stat > 0 && (!scaled || modifier > 0) {
            u32::MAX
        } else {
            0
        }
    } else if scaled {
        clamp_u32(
            ((stat * 10 + offset * divider) * modifier * HUNDREDTH_NUM) / (divider
                * HUNDREDTH_DEN),
        )
    } else {
        clamp_u32((stat * 10) / (divider as int) + offset)
    }
}

/// Computes `base_value`.
pub fn compute_base_value(stat: u32, divider: u32, offset: u8, scaled: bool, modifier: u32) -> (r:
    u32)
    ensures
        r == base_value(stat, divider, offset, scaled, modifier),
{
    if divider == 0 {
        if stat > 0 && (!scaled || modifier > 0) {
            u32::MAX
        } else {
            0
        }
    } else if scaled {
        let stat_w: u128 = stat as u128;
        let divider_w: u128 = divider as u128;
        let offset_w: u128 = offset as u128;
        let modifier_w: u128 = modifier as u128;
        assert(offset_w * divider_w <= 0x100 * 0x1_0000_0000) by (nonlinear_arith)
            requires
                offset_w <= 0x100,
                divider_w < 0x1_0000_0000,
        ;
        let whole: u128 = stat_w * 10 + offset_w * divider_w;
        assert(whole * modifier_w <= 0x10a * 0x1_0000_0000 * 0x1_0000_0000) by (nonlinear_arith)
            requires
                whole <= 0x10a * 0x1_0000_0000,
                modifier_w < 0x1_0000_0000,
        ;
        let scaled_whole: u128 = whole * modifier_w;
        assert(scaled_whole * 10737418 <= 0x10a * 0x1_0000_0000 * 0x1_0000_0000 * 10737418)
            by (nonlinear_arith)
            requires
                scaled_whole <= 0x10a * 0x1_0000_0000 * 0x1_0000_0000,
        ;
        let numerator: u128 = scaled_whole * (HUNDREDTH_NUM as u128);
        assert(0 < divider_w * 1073741824 <= 0x1_0000_0000 * 1073741824) by (nonlinear_arith)
            requires
                0 < divider_w < 0x1_0000_0000,
        ;
        let denominator: u128 = divider_w * (HUNDREDTH_DEN as u128);
        let q: u128 = numerator / denominator;
        if q > u32::MAX as u128 {
            u32::MAX
        } else {
            q as u32
        }
    } else {
        let q: u64 = (stat as u64 * 10) / (divider as u64) + offset as u64;
        if q > u32::MAX as u64 {
            u32::MAX
        } else {
            q as u32
        }
    }
}

/// What scales the progress of an action beside its potency.
#[derive(Clone, Copy, Debug)]
pub struct ProgressFactors {
    /// The factor that the action starts its condition factor from, in
    /// percent.
    pub base_condition: u8,
    /// Whether the condition is Malleable.
    pub malleable: bool,
    /// The factor that the action starts its buff factor from, in percent.
    pub base_bonus: u8,
    /// Whether Muscle Memory is active.
    pub muscle_memory: bool,
    /// Whether Veneration is active.
    pub veneration: bool,
}

/// What scales the quality of an action beside its potency and the stacks of
/// Inner Quiet.
#[derive(Clone, Copy, Debug)]
pub struct QualityFactors {
    /// The factor that the action starts its condition factor from, in
    /// percent.
    pub base_condition: u8,
    pub condition: StepState,
    /// Whether the crafter holds a splendorous tool.
    pub splendorous: bool,
    /// The factor that the action starts its buff factor from, in percent.
    pub base_bonus: u8,
    /// Whether Great Strides is active.
    pub great_strides: bool,
    /// Whether Innovation is active.
    pub innovation: bool,
}

impl ProgressFactors {
    /// Twice the factor of the condition: 1.5 while it is Malleable, 1
    /// otherwise.
    pub open spec fn condition_halves(self) -> int {
        if self.malleable {
            3
        } else {
            2
        }
    }

    /// Two hundred times the buff factor: the base bonus, and 1 more under
    /// Muscle Memory, and 0.5 more under Veneration.
    pub open spec fn buffs_by_200(self) -> int {
        2 * self.base_bonus + (if self.muscle_memory {
            200int
        } else {
            0int
        }) + (if self.veneration {
            100int
        } else {
            0int
        })
    }
}

impl QualityFactors {
    /// Four times the factor of the condition: 4 while it is Excellent, 0.5
    /// while it is Poor, 1.5 while it is Good (1.75 with a splendorous tool),
    /// 1 otherwise.
    pub open spec fn condition_quarters(self) -> int {
        match self.condition {
            StepState::Excellent => 16,
            StepState::Poor => 2,
            StepState::Good => if self.splendorous {
                7
            } else {
                6
            },
            _ => 4,
        }
    }

    /// Twice the factor of the buffs: 1, and 1 more under Great Strides, and
    /// 0.5 more under Innovation.
    pub open spec fn buff_halves(self) -> int {
        2 + (if self.great_strides {
            2int
        } else {
            0int
        }) + (if self.innovation {
            1int
        } else {
            0int
        })
    }
}

/// The progress that an action adds:
/// `base * condition * potency * buffs / 100`, floored once at the end. The
/// condition factor is the action's base condition times the factor of the
/// condition; the buff factor is the action's base bonus plus what the buffs
/// add.
pub open spec fn progress_gain(base: u32, factors: ProgressFactors, potency: u32) -> u32 {
    clamp_u32(
        (base * factors.base_condition * factors.condition_halves() * potency
            * factors.buffs_by_200()) / 4_000_000,
    )
}

/// Computes `progress_gain`.
pub fn compute_progress_gain(base: u32, factors: ProgressFactors, potency: u32) -> (r: u32)
    ensures
        r == progress_gain(base, factors, potency),
{
    let b: u128 = base as u128;
    let c: u128 = factors.base_condition as u128;
    let h: u128 = if factors.malleable {
        3
    } else {
        2
    };
    let p: u128 = potency as u128;
    let mut m: u128 = 2 * factors.base_bonus as u128;
    if factors.muscle_memory {
        m = m + 200;
    }
    if factors.veneration {
        m = m + 100;
    }
    assert(b * c <= 0x1_0000_0000 * 0x100) by (nonlinear_arith)
        requires
            b <= 0x1_0000_0000,
            c <= 0x100,
    ;
    let bc: u128 = b * c;
    assert(bc * h <= 0x1_0000_0000 * 0x100 * 4) by (nonlinear_arith)
        requires
            bc <= 0x1_0000_0000 * 0x100,
            h <= 4,
    ;
    let bch: u128 = bc * h;
    assert(bch * p <= 0x1_0000_0000 * 0x100 * 4 * 0x1_0000_0000) by (nonlinear_arith)
        requires
            bch <= 0x1_0000_0000 * 0x100 * 4,
            p <= 0x1_0000_0000,
    ;
    let bchp: u128 = bch * p;
    assert(bchp * m <= 0x1_0000_0000 * 0x100 * 4 * 0x1_0000_0000 * 0x400) by (nonlinear_arith)
        requires
            bchp <= 0x1_0000_0000 * 0x100 * 4 * 0x1_0000_0000,
            m <= 0x400,
    ;
    let q: u128 = (bchp * m) / 4_000_000;
    if q > u32::MAX as u128 {
        u32::MAX
    } else {
        q as u32
    }
}

/// The quality that an action adds:
/// `base * condition * potency * bonus * buffs * (100 + 10 * stacks) / 100
/// / 100`, floored once at the end. The condition factor is the action's
/// base condition times the factor of the condition; `bonus` is the action's
/// base bonus, `buffs` what Great Strides and Innovation make of 1, and
/// `stacks` the stacks of Inner Quiet.
pub open spec fn quality_gain(base: u32, factors: QualityFactors, potency: u32, stacks: u32) -> u32 {
    clamp_u32(
        (base * factors.base_condition * factors.condition_quarters() * potency
            * factors.base_bonus * factors.buff_halves() * (100 + 10 * stacks)) / 800_000_000,
    )
}

/// The quality that an action adds by the earlier shape of the formula, in
/// which a tenth for each stack of Inner Quiet is added to the base bonus
/// before the buffs multiply:
/// `base * condition * potency * (bonus + stacks / 10) * buffs / 100`,
/// floored once at the end.
pub open spec fn quality_gain_additive(
    base: u32,
    factors: QualityFactors,
    potency: u32,
    stacks: u32,
) -> u32 {
    clamp_u32(
        (base * factors.base_condition * factors.condition_quarters() * potency * (
        factors.base_bonus + 10 * stacks) * factors.buff_halves()) / 8_000_000,
    )
}

/// With a base bonus of one, the two shapes of the quality formula give the
/// same quality.
pub proof fn lemma_quality_shapes_agree(
    base: u32,
    factors: QualityFactors,
    potency: u32,
    stacks: u32,
)
    requires
        factors.base_bonus == 100,
    ensures
        quality_gain(base, factors, potency, stacks) == quality_gain_additive(
            base,
            factors,
            potency,
            stacks,
        ),
{
    let common = base * factors.base_condition * factors.condition_quarters() * potency;
    let grown = 100 + 10 * stacks;
    let halves = factors.buff_halves();
    let later = common * factors.base_bonus * halves * grown;
    let earlier = common * (factors.base_bonus + 10 * stacks) * halves;
    assert(later == 100 * earlier) by (nonlinear_arith)
        requires
            later == common * 100 * halves * grown,
            earlier == common * grown * halves,
    ;
    assert(common >= 0) by (nonlinear_arith)
        requires
            common == base * factors.base_condition * factors.condition_quarters() * potency,
            base >= 0,
            factors.base_condition >= 0,
            factors.condition_quarters() >= 0,
            potency >= 0,
    ;
    assert(earlier >= 0) by (nonlinear_arith)
        requires
            earlier == common * grown * halves,
            common >= 0,
            grown >= 0,
            halves >= 0,
    ;
    lemma_div_multiples_vanish_quotient(100, earlier, 8_000_000);
}

/// Computes `quality_gain`.
pub fn compute_quality_gain(base: u32, factors: QualityFactors, potency: u32, stacks: u32) -> (r:
    u32)
    ensures
        r == quality_gain(base, factors, potency, stacks),
{
    let b: u128 = base as u128;
    let c: u128 = factors.base_condition as u128;
    let k: u128 = match factors.condition {
        StepState::Excellent => 16,
        StepState::Poor => 2,
        StepState::Good => if factors.splendorous {
            7
        } else {
            6
        },
        _ => 4,
    };
    let p: u128 = potency as u128;
    let n: u128 = factors.base_bonus as u128;
    let mut h: u128 = 2;
    if factors.great_strides {
        h = h + 2;
    }
    if factors.innovation {
        h = h + 1;
    }
    let s: u128 = 100 + 10 * (stacks as u128);
    assert(b * c <= 0x1_0000_0000 * 0x100) by (nonlinear_arith)
        requires
            b <= 0x1_0000_0000,
            c <= 0x100,
    ;
    let bc: u128 = b * c;
    assert(bc * k <= 0x1_0000_0000 * 0x100 * 0x10) by (nonlinear_arith)
        requires
            bc <= 0x1_0000_0000 * 0x100,
            k <= 0x10,
    ;
    let bck: u128 = bc * k;
    assert(bck * p <= 0x1_0000_0000 * 0x100 * 0x10 * 0x1_0000_0000) by (nonlinear_arith)
        requires
            bck <= 0x1_0000_0000 * 0x100 * 0x10,
            p <= 0x1_0000_0000,
    ;
    let bckp: u128 = bck * p;
    assert(bckp * n <= 0x1_0000_0000 * 0x100 * 0x10 * 0x1_0000_0000 * 0x100) by (nonlinear_arith)
        requires
            bckp <= 0x1_0000_0000 * 0x100 * 0x10 * 0x1_0000_0000,
            n <= 0x100,
    ;
    let bckpn: u128 = bckp * n;
    assert(bckpn * h <= 0x1_0000_0000 * 0x100 * 0x10 * 0x1_0000_0000 * 0x100 * 8)
        by (nonlinear_arith)
        requires
            bckpn <= 0x1_0000_0000 * 0x100 * 0x10 * 0x1_0000_0000 * 0x100,
            h <= 8,
    ;
    let bckpnh: u128 = bckpn * h;
    assert(bckpnh * s <= 0x1_0000_0000 * 0x100 * 0x10 * 0x1_0000_0000 * 0x100 * 8
        * 0x10_0000_0000) by (nonlinear_arith)
        requires
            bckpnh <= 0x1_0000_0000 * 0x100 * 0x10 * 0x1_0000_0000 * 0x100 * 8,
            s <= 0x10_0000_0000,
    ;
    let q: u128 = (bckpnh * s) / 800_000_000;
    if q > u32::MAX as u128 {
        u32::MAX
    } else {
        q as u32
    }
}

/// What an action costs in CP while the condition is Pliant: half its base
/// cost, rounded up.
pub open spec fn halved_cost(base: u32) -> u32 {
    ceil_div(base as int, 2) as u32
}

/// Computes `halved_cost`.
pub fn compute_halved_cost(base: u32) -> (r: u32)
    ensures
        r == halved_cost(base),
        2 * r >= base,
        2 * r <= base + 1,
{
    base / 2 + base % 2
}

/// By how much a durability cost is divided: by two while Waste Not or Waste
/// Not II is active, and by two again while the condition is Sturdy.
pub open spec fn durability_divider(waste_not: bool, sturdy: bool) -> int {
    if waste_not && sturdy {
        4
    } else if waste_not || sturdy {
        2
    } else {
        1
    }
}

/// What an action costs in durability: its base cost over the divider,
/// rounded up once.
pub open spec fn reduced_durability_cost(base: u32, waste_not: bool, sturdy: bool) -> u32 {
    ceil_div(base as int, durability_divider(waste_not, sturdy)) as u32
}

/// Computes `reduced_durability_cost`.
pub fn compute_reduced_durability_cost(base: u32, waste_not: bool, sturdy: bool) -> (r: u32)
    ensures
        r == reduced_durability_cost(base, waste_not, sturdy),
        r <= base,
{
    let divider: u64 = if waste_not && sturdy {
        4
    } else if waste_not || sturdy {
        2
    } else {
        1
    };
    let q: u64 = (base as u64 + divider - 1) / divider;
    q as u32
}

/// The difference `after - before` of two unsigned values as an `i32`, both
/// the minuend and the result cut off to what an `i32` can hold.
pub open spec fn signed_difference(after: u32, before: u32) -> i32 {
    clamp_i32(clamp_i32(after as int) - before)
}

/// Computes `signed_difference`.
pub fn compute_signed_difference(after: u32, before: u32) -> (r: i32)
    ensures
        r == signed_difference(after, before),
{
    let a: i64 = if after > (i32::MAX as u32) {
        i32::MAX as i64
    } else {
        after as i64
    };
    let d: i64 = a - before as i64;
    if d < i32::MIN as i64 {
        i32::MIN
    } else {
        d as i32
    }
}

/// How much larger `after` is than `before`; zero where it is not larger.
pub open spec fn gained(after: u32, before: u32) -> u32 {
    if after >= before {
        (after - before) as u32
    } else {
        0
    }
}

} // verus!
