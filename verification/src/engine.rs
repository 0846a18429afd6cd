//! Seeding the first row and stepping a row to the next generation.
//!
//! A row is a fixed-length sequence of cell states, each 0 or 1. The
//! first row is all dead but for a single live center cell. Every later
//! row is a pure function of the previous row and the rule table: the
//! two edge cells are forced dead (the fixed dead-edge boundary), and
//! every interior cell is the table's output for the 3-cell neighborhood
//! above it.

use vstd::prelude::*;

use crate::AutomatonError;
use crate::rule::RuleTable;
use crate::rule::lemma_rule_output_is_state;
use crate::rule::rule_output;

verus! {

/// A row is a sequence of cell states, each 0 or 1.
pub open spec fn valid_row(s: Seq<u8>) -> bool {
    forall|i: int| 0 <= i < s.len() ==> (s[i] == 0 || s[i] == 1)
}

/// The integer code of a 3-cell neighborhood: left neighbor weighted 4,
/// center 2, right 1.
pub open spec fn neighborhood_code(left: u8, center: u8, right: u8) -> int {
    4 * left + 2 * center + right
}

/// The seed row of a given length: all cells 0 except the single center
/// index `length / 2` (integer division, so an even length puts the live
/// cell just right of the middle).
pub open spec fn seed_spec(length: nat) -> Seq<u8> {
    Seq::new(length, |i: int| if i == length as int / 2 { 1u8 } else { 0u8 })
}

/// The row that one generation step produces from `prev` under `rule`:
/// dead edges, and each interior cell the rule's output for its
/// neighborhood in `prev`.
pub open spec fn step_spec(prev: Seq<u8>, rule: u16) -> Seq<u8> {
    Seq::new(
        prev.len(),
        |i: int|
            if i == 0 || i == prev.len() - 1 {
                0u8
            } else {
                rule_output(rule, neighborhood_code(prev[i - 1], prev[i], prev[i + 1]) as u16)
            },
    )
}

/// Build the seed row: all zero, with the single center cell
/// `length / 2` set to 1.
pub fn seed(length: usize) -> (row: Vec<u8>)
    requires
        length >= 1,
    ensures
        row@ == seed_spec(length as nat),
        row@.len() == length,
        valid_row(row@),
{
    let center: usize = length / 2;
    let mut row: Vec<u8> = Vec::new();
    let mut i: usize = 0;
    while i < length
        invariant
            i <= length,
            center == length as int / 2,
            row@.len() == i,
            forall|j: int| 0 <= j < i ==> row@[j] == (if j == center { 1u8 } else { 0u8 }),
        decreases length - i,
    {
        if i == center {
            row.push(1);
        } else {
            row.push(0);
        }
        i = i + 1;
    }
    proof {
        assert(row@ =~= seed_spec(length as nat));
    }
    row
}

/// Step `previous` one generation under `table`. Rows of fewer than two
/// cells are rejected; any other row yields a row of the same length
/// with dead edges and rule-driven interior.
pub fn step(previous: &Vec<u8>, table: &RuleTable) -> (result: Result<Vec<u8>, AutomatonError>)
    requires
        table.wf(),
        valid_row(previous@),
    ensures
        previous@.len() >= 2 ==> (result matches Ok(row) && row@ == step_spec(
            previous@,
            table.rule_id(),
        )),
        previous@.len() < 2 ==> (result matches Err(e) && e == AutomatonError::InvalidRowLength),
{
    let n = previous.len();
    if n < 2 {
        return Err(AutomatonError::InvalidRowLength);
    }
    let ghost target = step_spec(previous@, table.rule_id());
    let mut row: Vec<u8> = Vec::new();
    row.push(0);
    let mut i: usize = 1;
    while i < n - 1
        invariant
            table.wf(),
            valid_row(previous@),
            n == previous@.len(),
            2 <= n,
            1 <= i <= n - 1,
            target == step_spec(previous@, table.rule_id()),
            row@.len() == i,
            forall|j: int| 0 <= j < i ==> row@[j] == target[j],
        decreases n - i,
    {
        let left = previous[i - 1];
        let center = previous[i];
        let right = previous[i + 1];
        let code: u8 = 4 * left + 2 * center + right;
        row.push(table.lookup(code));
        i = i + 1;
    }
    row.push(0);
    proof {
        assert(row@ =~= target);
    }
    Ok(row)
}

/// One generation step keeps the row's shape: the produced row has the
/// same length as the previous one, its first and last cells are 0, and
/// every cell is again a valid state.
pub proof fn lemma_step_shape(prev: Seq<u8>, rule: u16)
    requires
        prev.len() >= 2,
    ensures
        step_spec(prev, rule).len() == prev.len(),
        step_spec(prev, rule)[0] == 0,
        step_spec(prev, rule)[prev.len() - 1] == 0,
        valid_row(step_spec(prev, rule)),
{
    assert forall|i: int| 0 <= i < step_spec(prev, rule).len() implies (step_spec(prev, rule)[i]
        == 0 || step_spec(prev, rule)[i] == 1) by {
        if i != 0 && i != prev.len() - 1 {
            lemma_rule_output_is_state(
                rule,
                neighborhood_code(prev[i - 1], prev[i], prev[i + 1]) as u16,
            );
        }
    }
}

/// Stepping is deterministic: the produced row is a function of the
/// previous row and the rule alone, so any two rows that `step`'s
/// contract allows for the same inputs are equal.
pub proof fn lemma_step_deterministic(prev: Seq<u8>, rule: u16, r1: Seq<u8>, r2: Seq<u8>)
    requires
        r1 == step_spec(prev, rule),
        r2 == step_spec(prev, rule),
    ensures
        r1 == r2,
{
}

} // verus!
