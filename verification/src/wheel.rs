//! The wheel game: a weighted choice among prize slots.

use crate::config::ConfigurationError;
use crate::models::{WheelResponse, WheelResponseView};
use crate::random::draw_below;
use rand::rngs::SmallRng;
use vstd::prelude::*;
use vstd::string::StringExecFns;

verus! {

/// The sum of a list of weights.
pub open spec fn total_weight(weights: Seq<u32>) -> nat
    decreases weights.len(),
{
    if weights.len() == 0 {
        0
    } else {
        total_weight(weights.drop_last()) + weights.last() as nat
    }
}

/// The cumulative weight of the first `n` slots.
pub open spec fn weight_before(weights: Seq<u32>, n: int) -> nat {
    total_weight(weights.take(n))
}

/// The first slot at or after `from` whose cumulative weight exceeds `draw`,
/// or the number of slots if there is none.
pub open spec fn first_exceeding(weights: Seq<u32>, draw: int, from: int) -> int
    decreases weights.len() - from,
{
    if from < 0 || from >= weights.len() {
        weights.len() as int
    } else if draw < weight_before(weights, from + 1) {
        from
    } else {
        first_exceeding(weights, draw, from + 1)
    }
}

/// The slot that a draw selects: the first one whose cumulative weight is
/// greater than the draw, and the last slot where no cumulative weight is.
pub open spec fn selected_slot(weights: Seq<u32>, draw: int) -> int {
    let first = first_exceeding(weights, draw, 0);
    if first < weights.len() {
        first
    } else {
        weights.len() - 1
    }
}

/// Cumulative weights never decrease, and the last one is the total.
pub proof fn lemma_weight_before_monotonic(weights: Seq<u32>, i: int, j: int)
    requires
        0 <= i <= j <= weights.len(),
    ensures
        weight_before(weights, i) <= weight_before(weights, j),
        weight_before(weights, weights.len() as int) == total_weight(weights),
    decreases j - i,
{
    assert(weights.take(weights.len() as int) =~= weights);
    if i < j {
        lemma_weight_before_step(weights, i);
        lemma_weight_before_monotonic(weights, i + 1, j);
    }
}

/// Each slot adds its own weight to the cumulative weight.
pub proof fn lemma_weight_before_step(weights: Seq<u32>, i: int)
    requires
        0 <= i < weights.len(),
    ensures
        weight_before(weights, i + 1) == weight_before(weights, i) + weights[i] as nat,
        weight_before(weights, 0) == 0,
{
    assert(weights.take(i + 1).drop_last() =~= weights.take(i));
}

/// A draw below the total selects a slot of positive weight: the one whose
/// share of the range `0..total` holds the draw. A slot of weight zero has an
/// empty share and is never selected.
pub proof fn lemma_selected_slot_holds_draw(weights: Seq<u32>, draw: int)
    requires
        0 <= draw < total_weight(weights),
    ensures
        0 <= selected_slot(weights, draw) < weights.len(),
        weight_before(weights, selected_slot(weights, draw)) <= draw,
        draw < weight_before(weights, selected_slot(weights, draw) + 1),
        weights[selected_slot(weights, draw)] > 0,
{
    lemma_weight_before_monotonic(weights, 0, 0);
    lemma_first_exceeding(weights, draw, 0);
    lemma_weight_before_step(weights, selected_slot(weights, draw));
}

/// Walking on from a slot whose cumulative weight the draw has reached ends at
/// the slot whose share holds the draw.
proof fn lemma_first_exceeding(weights: Seq<u32>, draw: int, from: int)
    requires
        0 <= from <= weights.len(),
        weight_before(weights, from) <= draw < total_weight(weights),
    ensures
        from <= first_exceeding(weights, draw, from) < weights.len(),
        weight_before(weights, first_exceeding(weights, draw, from)) <= draw,
        draw < weight_before(weights, first_exceeding(weights, draw, from) + 1),
    decreases weights.len() - from,
{
    lemma_weight_before_monotonic(weights, from, weights.len() as int);
    if draw >= weight_before(weights, from + 1) {
        lemma_first_exceeding(weights, draw, from + 1);
    }
}

/// Only one slot's share holds a given draw.
pub proof fn lemma_share_is_unique(weights: Seq<u32>, draw: int, i: int, j: int)
    requires
        0 <= i < weights.len(),
        0 <= j < weights.len(),
        weight_before(weights, i) <= draw < weight_before(weights, i + 1),
        weight_before(weights, j) <= draw < weight_before(weights, j + 1),
    ensures
        i == j,
{
    if i < j {
        lemma_weight_before_monotonic(weights, i + 1, j);
    }
    if j < i {
        lemma_weight_before_monotonic(weights, j + 1, i);
    }
}

/// A draw that no cumulative weight exceeds falls to the last slot.
pub proof fn lemma_selected_slot_clamps(weights: Seq<u32>, draw: int)
    requires
        draw >= total_weight(weights),
    ensures
        selected_slot(weights, draw) == weights.len() - 1,
{
    lemma_first_exceeding_none(weights, draw, 0);
}

proof fn lemma_first_exceeding_none(weights: Seq<u32>, draw: int, from: int)
    requires
        0 <= from <= weights.len(),
        draw >= total_weight(weights),
    ensures
        first_exceeding(weights, draw, from) == weights.len(),
    decreases weights.len() - from,
{
    if from < weights.len() {
        lemma_weight_before_monotonic(weights, from + 1, weights.len() as int);
        lemma_first_exceeding_none(weights, draw, from + 1);
    }
}

/// One prize slot of the wheel.
#[derive(Debug, PartialEq, Eq)]
pub struct Slot {
    pub name: String,
    pub weight: u32,
}

/// The weights of a list of slots, in order.
pub open spec fn slot_weights(slots: Seq<Slot>) -> Seq<u32> {
    Seq::new(slots.len(), |i: int| slots[i].weight)
}

/// The names of a list of slots, in order.
pub open spec fn slot_names(slots: Seq<Slot>) -> Seq<Seq<char>> {
    Seq::new(slots.len(), |i: int| slots[i].name@)
}

/// The set of the indices that a list names.
pub open spec fn index_set(indices: Seq<usize>) -> Set<int> {
    Set::new(|i: int| exists|k: int| 0 <= k < indices.len() && indices[k] == i)
}

/// A wheel: its slots in order, and the indices of the slots that win. Which
/// slot wins is a matter of this table alone, never of a slot's name.
#[derive(Debug, PartialEq, Eq)]
pub struct Wheel {
    slots: Vec<Slot>,
    winning: Vec<usize>,
    total: u32,
}

impl Wheel {
    /// The weights of the slots, in order.
    pub closed spec fn weights(&self) -> Seq<u32> {
        slot_weights(self.slots@)
    }

    /// The names of the slots, in order.
    pub closed spec fn names(&self) -> Seq<Seq<char>> {
        slot_names(self.slots@)
    }

    /// The indices of the winning slots.
    pub closed spec fn winning(&self) -> Set<int> {
        index_set(self.winning@)
    }

    /// The sum of the weights.
    pub open spec fn total(&self) -> nat {
        total_weight(self.weights())
    }

    /// The wheel holds the sum of its weights, which therefore fits a `u32`.
    #[verifier::type_invariant]
    spec fn wf(&self) -> bool {
        self.total == self.total()
    }

    /// What a draw yields on this wheel: the selected slot, its name, and
    /// whether the slot is a winning one.
    pub open spec fn outcome_of(&self, draw: int) -> WheelResponseView {
        let index = selected_slot(self.weights(), draw);
        WheelResponseView {
            prize_index: index,
            prize_name: self.names()[index],
            is_win: self.winning().contains(index),
        }
    }

    /// A wheel of the given slots and winning indices. There is none where
    /// the weights add up to more than a `u32` holds.
    pub fn new(slots: Vec<Slot>, winning: Vec<usize>) -> (made: Option<Wheel>)
        ensures
            made is Some <==> total_weight(slot_weights(slots@)) <= u32::MAX,
            made matches Some(wheel) ==> {
                &&& wheel.weights() == slot_weights(slots@)
                &&& wheel.names() == slot_names(slots@)
                &&& wheel.winning() == index_set(winning@)
            },
    {
        let ghost weights = slot_weights(slots@);
        let mut total: u32 = 0;
        let mut i: usize = 0;
        proof {
            lemma_weight_before_monotonic(weights, 0, 0);
        }
        while i < slots.len()
            invariant
                i <= slots.len(),
                weights == slot_weights(slots@),
                total == weight_before(weights, i as int),
            decreases slots.len() - i,
        {
            proof {
                lemma_weight_before_step(weights, i as int);
                lemma_weight_before_monotonic(weights, i + 1, weights.len() as int);
            }
            match total.checked_add(slots[i].weight) {
                Some(sum) => {
                    total = sum;
                },
                None => {
                    return None;
                },
            }
            i += 1;
        }
        proof {
            lemma_weight_before_monotonic(weights, 0, weights.len() as int);
        }
        Some(Wheel { slots, winning, total })
    }

    /// The wheel of the game as it is played: eight slots, of which the two
    /// with the large credits cannot be drawn and the two with the small
    /// credits win.
    pub fn standard() -> (wheel: Wheel)
        ensures
            wheel.weights() == seq![0u32, 30u32, 5u32, 35u32, 0u32, 30u32, 5u32, 35u32],
            wheel.names() == seq![
                "รับเครดิต 500"@,
                "หมุนฟรี 1 ครั้ง"@,
                "รับเครดิต 50"@,
                "แย่จัง"@,
                "รับเครดิต 300"@,
                "หมุนฟรี 1 ครั้ง"@,
                "รับเครดิต 100"@,
                "แย่จัง"@,
            ],
            wheel.winning() == set![2int, 6int],
            wheel.total() == 140,
    {
        let slots = vec![
            Slot { name: String::from_str("รับเครดิต 500"), weight: 0 },
            Slot { name: String::from_str("หมุนฟรี 1 ครั้ง"), weight: 30 },
            Slot { name: String::from_str("รับเครดิต 50"), weight: 5 },
            Slot { name: String::from_str("แย่จัง"), weight: 35 },
            Slot { name: String::from_str("รับเครดิต 300"), weight: 0 },
            Slot { name: String::from_str("หมุนฟรี 1 ครั้ง"), weight: 30 },
            Slot { name: String::from_str("รับเครดิต 100"), weight: 5 },
            Slot { name: String::from_str("แย่จัง"), weight: 35 },
        ];
        let winning: Vec<usize> = vec![2, 6];
        proof {
            let weights = slot_weights(slots@);
            lemma_weight_before_step(weights, 0);
            lemma_weight_before_step(weights, 1);
            lemma_weight_before_step(weights, 2);
            lemma_weight_before_step(weights, 3);
            lemma_weight_before_step(weights, 4);
            lemma_weight_before_step(weights, 5);
            lemma_weight_before_step(weights, 6);
            lemma_weight_before_step(weights, 7);
            lemma_weight_before_monotonic(weights, 0, 8);
            assert(slot_names(slots@) =~= seq![
                "รับเครดิต 500"@,
                "หมุนฟรี 1 ครั้ง"@,
                "รับเครดิต 50"@,
                "แย่จัง"@,
                "รับเครดิต 300"@,
                "หมุนฟรี 1 ครั้ง"@,
                "รับเครดิต 100"@,
                "แย่จัง"@,
            ]);
        }
        Wheel { slots, winning, total: 140 }
    }

    /// The number of slots.
    pub fn len(&self) -> (n: usize)
        ensures
            n == self.weights().len(),
            n == self.names().len(),
    {
        self.slots.len()
    }

    /// The sum of the weights.
    pub fn total_weight(&self) -> (total: u32)
        ensures
            total == self.total(),
    {
        proof {
            use_type_invariant(self);
        }
        self.total
    }

    /// Whether the slot at `index` is a winning one, by the table of winning
    /// indices.
    pub fn is_win(&self, index: usize) -> (win: bool)
        ensures
            win <==> self.winning().contains(index as int),
    {
        let mut k: usize = 0;
        while k < self.winning.len()
            invariant
                k <= self.winning.len(),
                forall|j: int| 0 <= j < k ==> self.winning@[j] != index,
            decreases self.winning.len() - k,
        {
            if self.winning[k] == index {
                return true;
            }
            k += 1;
        }
        false
    }

    /// The slot that a draw selects, by walking the slots and adding up their
    /// weights: the first slot whose cumulative weight is greater than the
    /// draw. Where there is no such slot the last one is selected. A wheel
    /// without slots selects nothing.
    pub fn select(&self, draw: u32) -> (index: Option<usize>)
        ensures
            index is Some <==> self.weights().len() > 0,
            index matches Some(i) ==> i == selected_slot(self.weights(), draw as int),
    {
        proof {
            use_type_invariant(self);
        }
        let ghost weights = self.weights();
        let count: usize = self.slots.len();
        if count == 0 {
            return None;
        }
        let mut cumulative: u32 = 0;
        let mut i: usize = 0;
        proof {
            lemma_weight_before_monotonic(weights, 0, 0);
        }
        while i < count
            invariant
                i <= count,
                count == self.slots.len(),
                count > 0,
                self.wf(),
                weights == self.weights(),
                cumulative == weight_before(weights, i as int),
                first_exceeding(weights, draw as int, 0) == first_exceeding(
                    weights,
                    draw as int,
                    i as int,
                ),
            decreases count - i,
        {
            proof {
                lemma_weight_before_step(weights, i as int);
                lemma_weight_before_monotonic(weights, i + 1, weights.len() as int);
            }
            cumulative = cumulative + self.slots[i].weight;
            if draw < cumulative {
                return Some(i);
            }
            i += 1;
        }
        Some(count - 1)
    }

    /// What a draw yields: the selected slot, its name and whether it wins.
    /// A wheel without slots yields nothing.
    pub fn outcome(&self, draw: u32) -> (response: Option<WheelResponse>)
        ensures
            response is Some <==> self.weights().len() > 0,
            response matches Some(r) ==> r@ == self.outcome_of(draw as int),
    {
        match self.select(draw) {
            Some(index) => {
                let prize_name = self.slots[index].name.clone();
                let is_win = self.is_win(index);
                Some(WheelResponse { prize_index: index, prize_name, is_win })
            },
            None => None,
        }
    }

    /// One turn of the wheel. A total weight of zero is a defect of the
    /// configuration, reported before anything is drawn. Otherwise a number
    /// below the total is drawn, and the slot whose share holds it is the
    /// outcome: a slot of positive weight.
    pub fn generate_wheel(&self, rng: &mut SmallRng) -> (turn: Result<
        WheelResponse,
        ConfigurationError,
    >)
        ensures
            self.total() == 0 ==> turn == Err::<WheelResponse, ConfigurationError>(
                ConfigurationError::ZeroTotalWeight,
            ) && *final(rng) == *old(rng),
            self.total() > 0 ==> (turn matches Ok(response) && exists|draw: int|
                0 <= draw < self.total() && response@ == #[trigger] self.outcome_of(draw)),
            turn matches Ok(response) ==> {
                &&& response.prize_index < self.weights().len()
                &&& self.weights()[response.prize_index as int] > 0
                &&& response.prize_name@ == self.names()[response.prize_index as int]
                &&& response.is_win <==> self.winning().contains(response.prize_index as int)
            },
    {
        let total: u32 = self.total_weight();
        if total == 0 {
            return Err(ConfigurationError::ZeroTotalWeight);
        }
        let draw: u32 = draw_below(rng, total);
        proof {
            lemma_selected_slot_holds_draw(self.weights(), draw as int);
        }
        match self.outcome(draw) {
            Some(response) => {
                Ok(response)
            },
            None => Err(ConfigurationError::ZeroTotalWeight),
        }
    }
}

/// Every draw in a slot's share selects that slot. A slot's share is as
/// long as its weight, so among the draws below the total each slot is
/// selected by as many as its weight says.
pub proof fn lemma_draw_in_share_selects_slot(weights: Seq<u32>, index: int, draw: int)
    requires
        0 <= index < weights.len(),
        weight_before(weights, index) <= draw < weight_before(weights, index + 1),
    ensures
        selected_slot(weights, draw) == index,
        weight_before(weights, index + 1) - weight_before(weights, index) == weights[index],
{
    lemma_weight_before_monotonic(weights, index + 1, weights.len() as int);
    lemma_weight_before_step(weights, index);
    lemma_selected_slot_holds_draw(weights, draw);
    lemma_share_is_unique(weights, draw, index, selected_slot(weights, draw));
}

/// The draws below the total that select a slot.
pub open spec fn draws_selecting(weights: Seq<u32>, index: int) -> Set<int> {
    Set::new(|draw: int| 0 <= draw < total_weight(weights) && selected_slot(weights, draw) == index)
}

/// Of the draws below the total, exactly as many select a slot as its weight
/// says. A draw that falls on each number below the total equally often
/// therefore selects each slot in the proportion of its weight, and a slot
/// of weight zero never.
pub proof fn lemma_slot_selected_by_weight_many_draws(weights: Seq<u32>, index: int)
    requires
        0 <= index < weights.len(),
    ensures
        draws_selecting(weights, index).finite(),
        draws_selecting(weights, index).len() == weights[index],
{
    let low = weight_before(weights, index) as int;
    let high = weight_before(weights, index + 1) as int;
    lemma_weight_before_step(weights, index);
    lemma_weight_before_monotonic(weights, index + 1, weights.len() as int);
    assert forall|draw: int| low <= draw < high implies draws_selecting(weights, index).contains(
        draw,
    ) by {
        lemma_draw_in_share_selects_slot(weights, index, draw);
    }
    assert forall|draw: int| draws_selecting(weights, index).contains(draw) implies low <= draw
        < high by {
        lemma_selected_slot_holds_draw(weights, draw);
    }
    assert(draws_selecting(weights, index) =~= vstd::set_lib::set_int_range(low, high));
    vstd::set_lib::lemma_int_range(low, high);
}

} // verus!
