//! The condition process: which conditions a recipe allows, with what weight
//! each of them comes up, and which one a given roll selects.

use vstd::prelude::*;
use vstd::arithmetic::div_mod::lemma_div_denominator;
use super::enums::StepState;

verus! {

/// Two to the power of `i`.
pub open spec fn two_to(i: nat) -> nat
    decreases i,
{
    if i == 0 {
        1
    } else {
        2 * two_to((i - 1) as nat)
    }
}

/// Whether bit `i` of the flag is set, bit 0 being the lowest.
pub open spec fn bit_set(flag: u32, i: nat) -> bool {
    (flag as nat / two_to(i)) % 2 == 1
}

/// Whether a recipe with this conditions flag allows the condition: Normal
/// always, and the condition at position `i + 1` of the enumeration where bit
/// `i` is set. The forced failure is no condition of any recipe.
pub open spec fn is_legal(flag: u32, condition: StepState) -> bool {
    condition == StepState::Normal || (condition != StepState::Failure && bit_set(
        flag,
        (condition.ordinal() - 1) as nat,
    ))
}

/// The allowed conditions among the first `n` after the forced failure, in
/// the order of the enumeration.
pub open spec fn legal_upto(flag: u32, n: nat) -> Seq<StepState>
    decreases n,
{
    if n == 0 || n > 10 {
        Seq::empty()
    } else if n == 1 || bit_set(flag, (n - 1) as nat) {
        legal_upto(flag, (n - 1) as nat).push(StepState::at_ordinal(n).unwrap())
    } else {
        legal_upto(flag, (n - 1) as nat)
    }
}

/// The conditions that a recipe with this conditions flag allows, in the
/// order of the enumeration.
pub open spec fn legal_conditions(flag: u32) -> Seq<StepState> {
    legal_upto(flag, 10)
}

/// `legal_upto(flag, n)` holds exactly the allowed conditions among the first
/// `n`, each once and in rising order.
pub proof fn lemma_legal_upto(flag: u32, n: nat)
    requires
        n <= 10,
    ensures
        forall|s: StepState|
            #[trigger] legal_upto(flag, n).contains(s) <==> (is_legal(flag, s) && s.ordinal()
                <= n),
        forall|i: int, j: int|
            0 <= i < j < legal_upto(flag, n).len() ==> legal_upto(flag, n)[i].ordinal()
                < legal_upto(flag, n)[j].ordinal(),
        forall|i: int|
            0 <= i < legal_upto(flag, n).len() ==> 1 <= (#[trigger] legal_upto(
                flag,
                n,
            )[i]).ordinal() <= n,
    decreases n,
{
    if n > 0 {
        let before = legal_upto(flag, (n - 1) as nat);
        let now = legal_upto(flag, n);
        let added = StepState::at_ordinal(n).unwrap();
        lemma_legal_upto(flag, (n - 1) as nat);
        assert forall|s: StepState| #[trigger] now.contains(s) <==> (is_legal(flag, s)
            && s.ordinal() <= n) by {
            if n == 1 || bit_set(flag, (n - 1) as nat) {
                assert(now == before.push(added));
                if now.contains(s) {
                    let k = choose|k: int| 0 <= k < now.len() && now[k] == s;
                    if k < before.len() {
                        assert(before[k] == s);
                        assert(before.contains(s));
                    }
                }
                if is_legal(flag, s) && s.ordinal() <= n {
                    if s.ordinal() == n {
                        assert(s == added);
                        assert(now[before.len() as int] == s);
                    } else {
                        assert(before.contains(s));
                        let k = choose|k: int| 0 <= k < before.len() && before[k] == s;
                        assert(now[k] == s);
                    }
                }
            } else {
                if is_legal(flag, s) && s.ordinal() <= n {
                    assert(s.ordinal() != n);
                }
            }
        }
    }
}

/// The list of legal conditions holds a condition exactly when the recipe
/// allows it, and holds none twice.
pub proof fn lemma_legal_conditions(flag: u32)
    ensures
        forall|s: StepState| #[trigger] legal_conditions(flag).contains(s) <==> is_legal(flag, s),
        legal_conditions(flag).no_duplicates(),
        legal_conditions(flag).contains(StepState::Normal),
        !legal_conditions(flag).contains(StepState::Failure),
{
    lemma_legal_upto(flag, 10);
    let list = legal_conditions(flag);
    assert forall|s: StepState| #[trigger] list.contains(s) <==> is_legal(flag, s) by {
        assert(s.ordinal() <= 10);
    }
    assert forall|i: int, j: int| 0 <= i < list.len() && 0 <= j < list.len() && i != j implies list[i]
        != list[j] by {
        if i < j {
            assert(list[i].ordinal() < list[j].ordinal());
        } else {
            assert(list[j].ordinal() < list[i].ordinal());
        }
    }
}

/// Computes the conditions that a recipe with this conditions flag allows.
pub fn parse_conditions(flag: u32) -> (r: Vec<StepState>)
    ensures
        r@ == legal_conditions(flag),
{
    let mut list: Vec<StepState> = Vec::new();
    let mut rest: u32 = flag;
    let mut i: usize = 0;
    proof {
        assert(two_to(0) == 1);
    }
    while i < 10
        invariant
            i <= 10,
            rest as nat == flag as nat / two_to(i as nat),
            two_to(i as nat) > 0,
            list@ == legal_upto(flag, i as nat),
        decreases 10 - i,
    {
        proof {
            lemma_div_denominator(flag as int, two_to(i as nat) as int, 2);
            assert(two_to((i + 1) as nat) == 2 * two_to(i as nat));
            assert(two_to(i as nat) * 2 == 2 * two_to(i as nat)) by (nonlinear_arith);
        }
        if i == 0 || rest % 2 == 1 {
            match StepState::from_usize(i + 1) {
                Some(condition) => {
                    list.push(condition);
                },
                None => {},
            }
        }
        rest = rest / 2;
        i += 1;
    }
    list
}

/// Whether the list holds the condition.
pub fn contains_condition(list: &Vec<StepState>, condition: StepState) -> (r: bool)
    ensures
        r == list@.contains(condition),
{
    let mut i: usize = 0;
    while i < list.len()
        invariant
            i <= list.len(),
            forall|j: int| 0 <= j < i ==> list@[j] != condition,
        decreases list.len() - i,
    {
        if list[i] == condition {
            return true;
        }
        i += 1;
    }
    false
}

/// The weight, in hundredths, of each condition that can come up beside
/// Normal.
#[derive(Clone, Copy, Debug)]
pub struct ConditionOdds {
    pub good: u8,
    pub excellent: u8,
    pub centered: u8,
    pub sturdy: u8,
    pub pliant: u8,
    pub malleable: u8,
    pub primed: u8,
    pub good_omen: u8,
}

/// The weight, in hundredths, with which a condition other than Normal comes
/// up where it is legal: Good 20, or 25 from crafter level 63 on, or 12 on an
/// expert recipe; Excellent 4, or 0 on an expert recipe; Centered 15; Sturdy
/// 15; Pliant 12; Malleable 12; Primed 12; Good Omen 10. Poor only ever
/// follows Excellent and has weight 0, as has every condition that is not
/// legal.
pub open spec fn weight_of(
    legal: Seq<StepState>,
    level: u8,
    expert: bool,
    condition: StepState,
) -> u8 {
    if !legal.contains(condition) {
        0
    } else {
        match condition {
            StepState::Good => if expert {
                12
            } else if level >= 63 {
                25
            } else {
                20
            },
            StepState::Excellent => if expert {
                0
            } else {
                4
            },
            StepState::Centered => 15,
            StepState::Sturdy => 15,
            StepState::Pliant => 12,
            StepState::Malleable => 12,
            StepState::Primed => 12,
            StepState::GoodOmen => 10,
            _ => 0,
        }
    }
}

/// The weights of the eight conditions that can come up beside Normal.
pub open spec fn odds_of(legal: Seq<StepState>, level: u8, expert: bool) -> ConditionOdds {
    ConditionOdds {
        good: weight_of(legal, level, expert, StepState::Good),
        excellent: weight_of(legal, level, expert, StepState::Excellent),
        centered: weight_of(legal, level, expert, StepState::Centered),
        sturdy: weight_of(legal, level, expert, StepState::Sturdy),
        pliant: weight_of(legal, level, expert, StepState::Pliant),
        malleable: weight_of(legal, level, expert, StepState::Malleable),
        primed: weight_of(legal, level, expert, StepState::Primed),
        good_omen: weight_of(legal, level, expert, StepState::GoodOmen),
    }
}

impl ConditionOdds {
    /// What the eight weights add up to.
    pub open spec fn others(self) -> int {
        self.good + self.excellent + self.centered + self.sturdy + self.pliant + self.malleable
            + self.primed + self.good_omen
    }

    /// The weight of Normal: what the others leave of one hundred.
    pub open spec fn normal(self) -> int {
        if self.others() <= 100 {
            100 - self.others()
        } else {
            0
        }
    }

    /// What all weights add up to, Normal included.
    pub open spec fn total(self) -> int {
        self.others() + self.normal()
    }

    /// The weight of a condition.
    pub open spec fn weight(self, condition: StepState) -> int {
        match condition {
            StepState::Normal => self.normal(),
            StepState::Good => self.good as int,
            StepState::Excellent => self.excellent as int,
            StepState::Centered => self.centered as int,
            StepState::Sturdy => self.sturdy as int,
            StepState::Pliant => self.pliant as int,
            StepState::Malleable => self.malleable as int,
            StepState::Primed => self.primed as int,
            StepState::GoodOmen => self.good_omen as int,
            _ => 0,
        }
    }

    /// The rolls below this number select a condition that comes before
    /// `condition` in the order Good, Excellent, Centered, Sturdy, Pliant,
    /// Malleable, Primed, Good Omen, Normal.
    pub open spec fn lower_bound(self, condition: StepState) -> int {
        match condition {
            StepState::Good => 0,
            StepState::Excellent => self.good as int,
            StepState::Centered => self.good + self.excellent,
            StepState::Sturdy => self.good + self.excellent + self.centered,
            StepState::Pliant => self.good + self.excellent + self.centered + self.sturdy,
            StepState::Malleable => self.good + self.excellent + self.centered + self.sturdy
                + self.pliant,
            StepState::Primed => self.good + self.excellent + self.centered + self.sturdy
                + self.pliant + self.malleable,
            StepState::GoodOmen => self.good + self.excellent + self.centered + self.sturdy
                + self.pliant + self.malleable + self.primed,
            _ => self.others(),
        }
    }

    /// The condition that a roll selects: each condition owns as many rolls
    /// in a row as its weight says, and Normal owns the rest.
    pub open spec fn pick(self, roll: u32) -> StepState {
        if roll < self.lower_bound(StepState::Excellent) {
            StepState::Good
        } else if roll < self.lower_bound(StepState::Centered) {
            StepState::Excellent
        } else if roll < self.lower_bound(StepState::Sturdy) {
            StepState::Centered
        } else if roll < self.lower_bound(StepState::Pliant) {
            StepState::Sturdy
        } else if roll < self.lower_bound(StepState::Malleable) {
            StepState::Pliant
        } else if roll < self.lower_bound(StepState::Primed) {
            StepState::Malleable
        } else if roll < self.lower_bound(StepState::GoodOmen) {
            StepState::Primed
        } else if roll < self.others() {
            StepState::GoodOmen
        } else {
            StepState::Normal
        }
    }

    /// Computes `total`.
    pub fn get_total(&self) -> (r: u32)
        ensures
            r == self.total(),
            r >= 100,
    {
        let others: u32 = self.good as u32 + self.excellent as u32 + self.centered as u32
            + self.sturdy as u32 + self.pliant as u32 + self.malleable as u32 + self.primed as u32
            + self.good_omen as u32;
        if others <= 100 {
            100
        } else {
            others
        }
    }

    /// Computes `pick`.
    pub fn get_pick(&self, roll: u32) -> (r: StepState)
        ensures
            r == self.pick(roll),
    {
        let mut bound: u32 = self.good as u32;
        if roll < bound {
            return StepState::Good;
        }
        bound = bound + self.excellent as u32;
        if roll < bound {
            return StepState::Excellent;
        }
        bound = bound + self.centered as u32;
        if roll < bound {
            return StepState::Centered;
        }
        bound = bound + self.sturdy as u32;
        if roll < bound {
            return StepState::Sturdy;
        }
        bound = bound + self.pliant as u32;
        if roll < bound {
            return StepState::Pliant;
        }
        bound = bound + self.malleable as u32;
        if roll < bound {
            return StepState::Malleable;
        }
        bound = bound + self.primed as u32;
        if roll < bound {
            return StepState::Primed;
        }
        bound = bound + self.good_omen as u32;
        if roll < bound {
            return StepState::GoodOmen;
        }
        StepState::Normal
    }
}

/// Computes the weights of the eight conditions that can come up beside
/// Normal.
pub fn compute_odds(legal: &Vec<StepState>, level: u8, expert: bool) -> (r: ConditionOdds)
    ensures
        r == odds_of(legal@, level, expert),
{
    ConditionOdds {
        good: if !contains_condition(legal, StepState::Good) {
            0
        } else if expert {
            12
        } else if level >= 63 {
            25
        } else {
            20
        },
        excellent: if !contains_condition(legal, StepState::Excellent) || expert {
            0
        } else {
            4
        },
        centered: if contains_condition(legal, StepState::Centered) {
            15
        } else {
            0
        },
        sturdy: if contains_condition(legal, StepState::Sturdy) {
            15
        } else {
            0
        },
        pliant: if contains_condition(legal, StepState::Pliant) {
            12
        } else {
            0
        },
        malleable: if contains_condition(legal, StepState::Malleable) {
            12
        } else {
            0
        },
        primed: if contains_condition(legal, StepState::Primed) {
            12
        } else {
            0
        },
        good_omen: if contains_condition(legal, StepState::GoodOmen) {
            10
        } else {
            0
        },
    }
}

/// The condition that follows `current` on a roll: Poor after Excellent and
/// Good after Good Omen whatever the roll, and otherwise the condition that
/// the roll selects.
pub open spec fn next_condition(current: StepState, odds: ConditionOdds, roll: u32) -> StepState {
    if current == StepState::Excellent {
        StepState::Poor
    } else if current == StepState::GoodOmen {
        StepState::Good
    } else {
        odds.pick(roll)
    }
}

/// Of the rolls below the total, a condition owns exactly those from its
/// lower bound on, as many as its weight: so each condition comes up with a
/// chance of its weight over the total.
pub proof fn lemma_pick_interval(odds: ConditionOdds, condition: StepState, roll: u32)
    requires
        roll < odds.total(),
    ensures
        odds.pick(roll) == condition <==> odds.lower_bound(condition) <= roll < odds.lower_bound(
            condition,
        ) + odds.weight(condition),
        odds.pick(roll) != StepState::Failure,
        odds.pick(roll) != StepState::Poor,
{
}

/// A roll below the total selects a condition of positive weight: what
/// weighs nothing never comes up.
pub proof fn lemma_pick_has_weight(odds: ConditionOdds, roll: u32)
    requires
        roll < odds.total(),
    ensures
        odds.weight(odds.pick(roll)) > 0,
{
}

/// The condition process yields legal conditions only: whatever the roll,
/// the condition that follows is Normal, or one of the legal conditions, or
/// the Poor that follows Excellent.
pub proof fn lemma_only_legal_conditions_follow(
    current: StepState,
    legal: Seq<StepState>,
    level: u8,
    expert: bool,
    roll: u32,
)
    requires
        roll < odds_of(legal, level, expert).total(),
    ensures
        ({
            let next = next_condition(current, odds_of(legal, level, expert), roll);
            ||| next == StepState::Normal
            ||| legal.contains(next)
            ||| current == StepState::Excellent && next == StepState::Poor
            ||| current == StepState::GoodOmen && next == StepState::Good
        }),
{
}

} // verus!
