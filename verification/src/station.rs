//! The station table and how the selection moves through it.

use vstd::prelude::*;

verus! {

/// One stream: the name shown in the list and the address that is played.
#[derive(Clone, Copy, Debug, PartialEq, Eq)]
pub struct Station {
    pub name: &'static str,
    pub url: &'static str,
}

/// The direction in which the selection moves.
#[derive(Clone, Copy, Debug, PartialEq, Eq, Structural)]
pub enum Direction {
    Prev,
    Next,
}

/// The built-in station table, in the order in which it is shown.
pub fn stations() -> (r: Vec<Station>)
    ensures
        r@.len() == 2,
        r@[0].name@ == "Lofi 1"@,
        r@[0].url@ == "https://stream.zeno.fm/0r0xa792kwzuv"@,
        r@[1].name@ == "Lofi 2"@,
        r@[1].url@ == "https://stream.zeno.fm/v5reddyk8rhvv"@,
{
    let mut table: Vec<Station> = Vec::new();
    table.push(Station { name: "Lofi 1", url: "https://stream.zeno.fm/0r0xa792kwzuv" });
    table.push(Station { name: "Lofi 2", url: "https://stream.zeno.fm/v5reddyk8rhvv" });
    table
}

/// The position after `index` in a table of `count` stations; the first
/// follows the last.
pub open spec fn next_station(index: nat, count: nat) -> nat {
    if index + 1 >= count {
        0
    } else {
        index + 1
    }
}

/// The position before `index` in a table of `count` stations; the last
/// precedes the first.
pub open spec fn prev_station(index: nat, count: nat) -> nat {
    if index == 0 {
        (count - 1) as nat
    } else {
        (index - 1) as nat
    }
}

/// The position one move away from `index` in the given direction.
pub open spec fn moved(index: nat, count: nat, direction: Direction) -> nat {
    match direction {
        Direction::Prev => prev_station(index, count),
        Direction::Next => next_station(index, count),
    }
}

/// The position reached from `index` by moving forward `presses` times.
pub open spec fn advanced(index: nat, count: nat, presses: nat) -> nat
    decreases presses,
{
    if presses == 0 {
        index
    } else {
        next_station(advanced(index, count, (presses - 1) as nat), count)
    }
}

/// Whether fewer than `count` moves forward from `index` lead to `target`.
pub open spec fn reached_in_round(index: nat, count: nat, target: nat) -> bool {
    exists|presses: nat| presses < count && #[trigger] advanced(index, count, presses) == target
}

/// Moves the selection forward by one station, from the last to the first.
pub fn next_index(index: usize, count: usize) -> (r: usize)
    requires
        index < count,
    ensures
        r == next_station(index as nat, count as nat),
        r < count,
        r == (index + 1) % (count as int),
{
    if index + 1 == count {
        assert((index + 1) % (count as int) == 0) by (nonlinear_arith)
            requires
                index + 1 == count,
                count > 0,
        ;
        0
    } else {
        assert((index + 1) % (count as int) == index + 1) by (nonlinear_arith)
            requires
                0 <= index + 1 < count,
        ;
        index + 1
    }
}

/// Moves the selection back by one station, from the first to the last.
pub fn prev_index(index: usize, count: usize) -> (r: usize)
    requires
        index < count,
    ensures
        r == prev_station(index as nat, count as nat),
        r < count,
{
    if index == 0 {
        count - 1
    } else {
        index - 1
    }
}

/// Moves the selection by one station in the given direction.
pub fn step_index(index: usize, count: usize, direction: Direction) -> (r: usize)
    requires
        index < count,
    ensures
        r == moved(index as nat, count as nat, direction),
        r < count,
{
    match direction {
        Direction::Prev => prev_index(index, count),
        Direction::Next => next_index(index, count),
    }
}

/// Moving back from the first station lands on the last, moving forward from
/// the last lands on the first, and either move stays inside the table.
pub proof fn lemma_navigation_wraps(index: nat, count: nat)
    requires
        index < count,
    ensures
        prev_station(0, count) == count - 1,
        next_station((count - 1) as nat, count) == 0,
        prev_station(index, count) < count,
        next_station(index, count) < count,
{
}

/// Moving forward and then back, or back and then forward, returns to the
/// station one started from.
pub proof fn lemma_prev_next_inverse(index: nat, count: nat)
    requires
        index < count,
    ensures
        prev_station(next_station(index, count), count) == index,
        next_station(prev_station(index, count), count) == index,
{
}

/// Where `presses` moves forward lead, for up to one full round: straight
/// ahead, minus the length of the table once its end is passed.
pub proof fn lemma_advanced_position(index: nat, count: nat, presses: nat)
    requires
        index < count,
        presses <= count,
    ensures
        advanced(index, count, presses) == if index + presses < count {
            (index + presses) as int
        } else {
            index + presses - count
        },
        advanced(index, count, presses) < count,
    decreases presses,
{
    if presses > 0 {
        lemma_advanced_position(index, count, (presses - 1) as nat);
    }
}

/// Repeated moves forward visit every station exactly once before the
/// selection is back where it started: within one round no two positions
/// agree, each station is reached, and the round ends on the starting station.
pub proof fn lemma_next_cycles_once(index: nat, count: nat)
    requires
        index < count,
    ensures
        advanced(index, count, count) == index,
        forall|i: nat, j: nat|
            i < j < count ==> #[trigger] advanced(index, count, i) != #[trigger] advanced(
                index,
                count,
                j,
            ),
        forall|target: nat| target < count ==> #[trigger] reached_in_round(index, count, target),
{
    lemma_advanced_position(index, count, count);
    assert forall|i: nat, j: nat| i < j < count implies #[trigger] advanced(index, count, i)
        != #[trigger] advanced(index, count, j) by {
        lemma_advanced_position(index, count, i);
        lemma_advanced_position(index, count, j);
    }
    assert forall|target: nat| target < count implies #[trigger] reached_in_round(
        index,
        count,
        target,
    ) by {
        let presses: nat = if target >= index {
            (target - index) as nat
        } else {
            (target + count - index) as nat
        };
        lemma_advanced_position(index, count, presses);
        assert(presses < count && advanced(index, count, presses) == target);
    }
}

} // verus!
