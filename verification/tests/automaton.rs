use elementary_ca::AutomatonError;
use elementary_ca::engine::seed;
use elementary_ca::engine::step;
use elementary_ca::layout::place;
use elementary_ca::rule::RuleTable;

#[test]
fn every_rule_yields_only_cell_states() {
    for rule in 0u16..=255 {
        let table = RuleTable::build(rule).unwrap();
        for v in 0u8..8 {
            let state = table.lookup(v);
            assert!(state == 0 || state == 1);
        }
    }
}

#[test]
fn table_round_trips_to_rule_number() {
    for rule in 0u16..=255 {
        let table = RuleTable::build(rule).unwrap();
        let mut rebuilt: u16 = 0;
        for v in (0u8..8).rev() {
            rebuilt = rebuilt * 2 + table.lookup(v) as u16;
        }
        assert_eq!(rebuilt, rule);
    }
}

#[test]
fn rule_101_table_entries() {
    let table = RuleTable::build(101).unwrap();
    let expected: [u8; 8] = [1, 0, 1, 0, 0, 1, 1, 0];
    for v in 0u8..8 {
        assert_eq!(table.lookup(v), expected[v as usize]);
    }
}

#[test]
fn out_of_range_rule_is_rejected() {
    assert_eq!(RuleTable::build(256).unwrap_err(), AutomatonError::InvalidRule);
    assert_eq!(RuleTable::build(1000).unwrap_err(), AutomatonError::InvalidRule);
}

#[test]
fn seed_has_single_live_center_cell() {
    assert_eq!(seed(11), vec![0, 0, 0, 0, 0, 1, 0, 0, 0, 0, 0]);
}

#[test]
fn seed_even_length_puts_center_right_of_middle() {
    assert_eq!(seed(4), vec![0, 0, 1, 0]);
    assert_eq!(seed(2), vec![0, 1]);
}

#[test]
fn seed_of_length_one_is_a_live_cell() {
    assert_eq!(seed(1), vec![1]);
}

#[test]
fn rule_101_single_step_scenario() {
    // Interior neighborhoods of `previous` encode to [0, 0, 1, 2, 4, 0, 0],
    // and rule 101 (binary 01100101) maps those codes to [1, 1, 0, 1, 0, 1, 1];
    // the edges are forced dead.
    let table = RuleTable::build(101).unwrap();
    let previous = vec![0, 0, 0, 0, 1, 0, 0, 0, 0];
    let next = step(&previous, &table).unwrap();
    assert_eq!(next, vec![0, 1, 1, 0, 1, 0, 1, 1, 0]);
}

#[test]
fn step_keeps_length_and_forces_dead_edges() {
    let table = RuleTable::build(255).unwrap();
    let previous = vec![1, 1, 1, 1, 1];
    let next = step(&previous, &table).unwrap();
    assert_eq!(next.len(), previous.len());
    assert_eq!(next[0], 0);
    assert_eq!(next[next.len() - 1], 0);
    for state in &next {
        assert!(*state == 0 || *state == 1);
    }
}

#[test]
fn step_is_deterministic() {
    let table = RuleTable::build(110).unwrap();
    let previous = vec![0, 1, 0, 1, 1, 0, 1, 0];
    let first = step(&previous, &table).unwrap();
    let second = step(&previous, &table).unwrap();
    assert_eq!(first, second);
}

#[test]
fn step_rejects_rows_shorter_than_two() {
    let table = RuleTable::build(101).unwrap();
    assert_eq!(step(&vec![1], &table).unwrap_err(), AutomatonError::InvalidRowLength);
    assert_eq!(step(&vec![], &table).unwrap_err(), AutomatonError::InvalidRowLength);
}

#[test]
fn two_cell_row_is_all_dead_after_one_step() {
    let table = RuleTable::build(101).unwrap();
    assert_eq!(step(&vec![1, 1], &table).unwrap(), vec![0, 0]);
}

#[test]
fn placement_anchors_and_pitch() {
    assert_eq!(place(0, 0, 10, 900), (-440, 440));
    assert_eq!(place(1, 0, 10, 900), (-430, 440));
    assert_eq!(place(0, 1, 10, 900), (-440, 430));
}

#[test]
fn placement_never_collides_on_a_small_grid() {
    let mut positions: Vec<(i64, i64)> = Vec::new();
    for column in 0u32..6 {
        for generation in 0u32..6 {
            positions.push(place(column, generation, 10, 900));
        }
    }
    for a in 0..positions.len() {
        for b in (a + 1)..positions.len() {
            assert_ne!(positions[a], positions[b]);
        }
    }
}
