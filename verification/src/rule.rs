//! Decoding a rule number into its 8-entry lookup table.
//!
//! An elementary cellular automaton rule is an integer in `[0, 255]`.
//! The table entry for a 3-cell neighborhood encoded as `v` (in `[0, 7]`,
//! left neighbor weighted 4, center 2, right 1) is bit `v` of the rule's
//! 8-bit binary expansion: reading the expansion most-significant-bit
//! first as `b[0..8]`, the entry for `v` is `b[7 - v]`.

use vstd::prelude::*;

use crate::AutomatonError;

verus! {

/// The output state a rule assigns to the neighborhood code `v`:
/// bit `v` of the rule number, so 0 or 1.
pub open spec fn rule_output(rule: u16, v: u16) -> u8 {
    (((rule >> v) & 1) as u8)
}

/// `rule_output` only ever produces a cell state, 0 or 1.
pub proof fn lemma_rule_output_is_state(rule: u16, v: u16)
    by (bit_vector)
    ensures
        rule_output(rule, v) == 0 || rule_output(rule, v) == 1,
{
}

/// The lookup table of one elementary automaton rule: for each of the 8
/// neighborhood codes, the next state of the center cell.
#[derive(Debug)]
pub struct RuleTable {
    rule: u16,
    table: Vec<u8>,
}

impl RuleTable {
    /// The rule number this table was built from.
    pub closed spec fn rule_id(&self) -> u16 {
        self.rule
    }

    /// The table holds exactly the 8 output bits of an in-range rule.
    pub closed spec fn wf(&self) -> bool {
        &&& self.rule <= 255
        &&& self.table@.len() == 8
        &&& forall|v: int| 0 <= v < 8 ==> self.table@[v] == rule_output(self.rule, v as u16)
    }

    /// Decode `rule` into its lookup table; rules outside `[0, 255]`
    /// are rejected.
    pub fn build(rule: u16) -> (result: Result<RuleTable, AutomatonError>)
        ensures
            rule <= 255 ==> (result matches Ok(t) && t.wf() && t.rule_id() == rule),
            rule > 255 ==> (result matches Err(e) && e == AutomatonError::InvalidRule),
    {
        if rule > 255 {
            return Err(AutomatonError::InvalidRule);
        }
        let mut table: Vec<u8> = Vec::new();
        let mut v: u16 = 0;
        while v < 8
            invariant
                v <= 8,
                rule <= 255,
                table@.len() == v,
                forall|i: int| 0 <= i < v ==> table@[i] == rule_output(rule, i as u16),
            decreases 8 - v,
        {
            let bit: u16 = (rule >> v) & 1;
            assert(((rule >> v) & 1) <= 1) by (bit_vector);
            table.push(bit as u8);
            v = v + 1;
        }
        Ok(RuleTable { rule, table })
    }

    /// The next state for the neighborhood code `neighborhood`: total over
    /// `[0, 7]`, pure, and always 0 or 1.
    pub fn lookup(&self, neighborhood: u8) -> (state: u8)
        requires
            self.wf(),
            neighborhood < 8,
        ensures
            state == rule_output(self.rule_id(), neighborhood as u16),
            state == 0 || state == 1,
    {
        proof {
            lemma_rule_output_is_state(self.rule, neighborhood as u16);
        }
        self.table[neighborhood as usize]
    }
}

/// Reading the table at neighborhood codes 7 down to 0 spells out the
/// rule number's 8-bit binary expansion most-significant-bit first, so
/// the table determines the rule it was built from.
pub proof fn lemma_table_round_trip(rule: u16)
    requires
        rule <= 255,
    ensures
        128 * rule_output(rule, 7) + 64 * rule_output(rule, 6) + 32 * rule_output(rule, 5)
            + 16 * rule_output(rule, 4) + 8 * rule_output(rule, 3) + 4 * rule_output(rule, 2)
            + 2 * rule_output(rule, 1) + rule_output(rule, 0) == rule,
{
    assert(128 * (((rule >> 7u16) & 1) as u8) + 64 * (((rule >> 6u16) & 1) as u8)
        + 32 * (((rule >> 5u16) & 1) as u8) + 16 * (((rule >> 4u16) & 1) as u8)
        + 8 * (((rule >> 3u16) & 1) as u8) + 4 * (((rule >> 2u16) & 1) as u8)
        + 2 * (((rule >> 1u16) & 1) as u8) + (((rule >> 0u16) & 1) as u8) == rule)
        by (bit_vector)
        requires
            rule <= 255,
    ;
}

} // verus!
