use transposition_table::entry::{DEPTH_UNDERCUT, GENERATION_MASK, PV_BIT};
use transposition_table::{Bound, Depth, Key, Move, TTEntry, Value};

fn resident() -> TTEntry {
    let mut e = TTEntry::empty();
    e.save(
        Key(0x00c3_0000_0000_0000),
        Value(150),
        true,
        Bound::Lower,
        Depth(14),
        Some(Move(0x0001_2345)),
        Value(-40),
        16,
    );
    e
}

#[test]
fn all_zero_entry_decodes_to_empty_in_every_field() {
    let e = TTEntry::empty();
    assert_eq!(e.key16, 0);
    assert_eq!(e.mv16, 0);
    assert_eq!(e.value(), Value(0));
    assert_eq!(e.eval(), Value(0));
    assert_eq!(e.depth(), Depth(-6));
    assert_eq!(e.bound(), Bound::Unset);
    assert!(!e.is_pv());
    assert_eq!(e.generation(), 0);
}

#[test]
fn save_into_an_unused_entry_fills_every_field() {
    let e = resident();
    assert_eq!(
        e,
        TTEntry {
            key16: 0x00c3,
            mv16: 0x2345,
            value16: 150,
            eval16: -40,
            genbound8: 16 | 4 | 2,
            depth8: 20,
        }
    );
    assert_eq!(e.value(), Value(150));
    assert_eq!(e.eval(), Value(-40));
    assert_eq!(e.depth(), Depth(14));
    assert_eq!(e.bound(), Bound::Lower);
    assert!(e.is_pv());
    assert_eq!(e.generation(), 16);
}

#[test]
fn depth_round_trip_over_the_whole_byte() {
    for code in 0..=255i32 {
        let depth = Depth(Depth::OFFSET + code * Depth::ONE_PLY);
        let mut e = TTEntry::empty();
        e.save(Key(0x0001_0000_0000_0000), Value(0), false, Bound::Exact, depth, None, Value(0), 0);
        assert_eq!(i32::from(e.depth8), code);
        assert_eq!(e.depth(), depth);
    }
}

#[test]
fn depth_formula_exact_values() {
    let mut e = TTEntry::empty();
    e.depth8 = 0;
    assert_eq!(e.depth(), Depth(-6));
    e.depth8 = 6;
    assert_eq!(e.depth(), Depth(0));
    e.depth8 = 255;
    assert_eq!(e.depth(), Depth(249));
}

#[test]
fn depth_code_beyond_the_byte_keeps_its_low_eight_bits() {
    let mut e = TTEntry::empty();
    e.save(Key(0x0001_0000_0000_0000), Value(0), false, Bound::Exact, Depth(250), None, Value(0), 0);
    assert_eq!(e.depth8, 0);
    e.save(Key(0x0002_0000_0000_0000), Value(0), false, Bound::Exact, Depth(251), None, Value(0), 0);
    assert_eq!(e.depth8, 1);
}

#[test]
fn scores_are_sign_extended_and_keep_their_low_sixteen_bits() {
    let mut e = TTEntry::empty();
    let key = Key(0x0001_0000_0000_0000);
    e.save(key, Value(-1), false, Bound::Exact, Depth(0), None, Value(-32768), 0);
    assert_eq!(e.value(), Value(-1));
    assert_eq!(e.eval(), Value(-32768));
    e.save(key, Value(32767), false, Bound::Exact, Depth(0), None, Value(1), 0);
    assert_eq!(e.value(), Value(32767));
    assert_eq!(e.eval(), Value(1));
    e.save(key, Value(40000), false, Bound::Exact, Depth(0), None, Value(-40000), 0);
    assert_eq!(e.value(), Value(40000 - 65536));
    assert_eq!(e.eval(), Value(65536 - 40000));
}

#[test]
fn bound_flag_and_generation_share_one_byte() {
    let bounds = [Bound::Unset, Bound::Upper, Bound::Lower, Bound::Exact];
    for (code, bound) in bounds.iter().enumerate() {
        for pv in [false, true] {
            for step in 0..32u8 {
                let generation = step * 8;
                let mut e = TTEntry::empty();
                e.save(Key(0x0001_0000_0000_0000), Value(0), pv, *bound, Depth(0), None, Value(0), generation);
                assert_eq!(e.genbound8, generation | (if pv { 4 } else { 0 }) | code as u8);
                assert_eq!(e.bound(), *bound);
                assert_eq!(e.is_pv(), pv);
                assert_eq!(e.generation(), generation);
            }
        }
    }
    assert_eq!(GENERATION_MASK, 0xf8);
    assert_eq!(PV_BIT, 4);
}

#[test]
fn save_without_move_keeps_the_move_of_the_same_position() {
    let mut e = resident();
    e.save(Key(0x00c3_ffff_ffff_ffff), Value(1), false, Bound::Exact, Depth(14), None, Value(0), 16);
    assert_eq!(e.mv16, 0x2345);
    assert_eq!(e.value(), Value(1));
}

#[test]
fn save_without_move_keeps_the_move_even_where_the_record_stays() {
    let mut e = resident();
    e.save(Key(0x00c3_0000_0000_0000), Value(1), false, Bound::Upper, Depth(2), None, Value(0), 24);
    assert_eq!(e, resident());
}

#[test]
fn save_without_move_clears_the_move_of_another_position() {
    let mut e = resident();
    e.save(Key(0x00c4_0000_0000_0000), Value(1), false, Bound::Upper, Depth(-6), None, Value(0), 16);
    assert_eq!(e.mv16, 0);
    assert_eq!(e.key16, 0x00c4);
}

#[test]
fn save_with_move_stores_its_low_sixteen_bits() {
    let mut e = resident();
    e.save(Key(0x00c3_0000_0000_0000), Value(1), false, Bound::Exact, Depth(14), Some(Move(0x001f_8642)), Value(0), 16);
    assert_eq!(e.mv16, 0x8642);
}

#[test]
fn save_with_move_stores_it_even_where_the_record_stays() {
    let mut e = resident();
    e.save(Key(0x00c3_0000_0000_0000), Value(1), false, Bound::Upper, Depth(2), Some(Move(0x0777)), Value(9), 24);
    let mut expected = resident();
    expected.mv16 = 0x0777;
    assert_eq!(e, expected);
}

#[test]
fn much_shallower_bound_for_the_same_position_leaves_the_record() {
    assert_eq!(DEPTH_UNDERCUT, 4);
    let key = Key(0x00c3_0000_0000_0000);
    for shallower in 5..=20 {
        for bound in [Bound::Unset, Bound::Upper, Bound::Lower] {
            let mut e = resident();
            e.save(key, Value(-7), false, bound, Depth(14 - shallower), None, Value(3), 24);
            assert_eq!(e.value(), Value(150));
            assert_eq!(e.eval(), Value(-40));
            assert_eq!(e.depth(), Depth(14));
            assert_eq!(e.bound(), Bound::Lower);
            assert!(e.is_pv());
            assert_eq!(e.generation(), 16);
            assert_eq!(e.key16, 0x00c3);
        }
    }
}

#[test]
fn slightly_shallower_result_replaces_the_record() {
    let key = Key(0x00c3_0000_0000_0000);
    for shallower in 0..=4 {
        let mut e = resident();
        e.save(key, Value(-7), false, Bound::Upper, Depth(14 - shallower), None, Value(3), 24);
        assert_eq!(e.value(), Value(-7));
        assert_eq!(e.eval(), Value(3));
        assert_eq!(e.depth(), Depth(14 - shallower));
        assert_eq!(e.bound(), Bound::Upper);
        assert!(!e.is_pv());
        assert_eq!(e.generation(), 24);
    }
}

#[test]
fn result_at_exactly_the_undercut_below_replaces_the_record() {
    let key = Key(0x00c3_0000_0000_0000);
    for bound in [Bound::Unset, Bound::Upper, Bound::Lower] {
        let mut e = resident();
        assert_eq!(e.depth8, 20);
        e.save(key, Value(-7), false, bound, Depth(10), None, Value(3), 24);
        assert_eq!(e.depth8, 16);
        assert_eq!(e.value(), Value(-7));
        assert_eq!(e.eval(), Value(3));
        assert_eq!(e.depth(), Depth(10));
        assert_eq!(e.bound(), bound);
        assert!(!e.is_pv());
        assert_eq!(e.generation(), 24);
        assert_eq!(e.mv16, 0x2345);

        let mut e = resident();
        e.save(key, Value(-7), false, bound, Depth(9), None, Value(3), 24);
        assert_eq!(e, resident());
    }
}

#[test]
fn exact_score_replaces_the_record_at_any_depth() {
    let mut e = resident();
    e.save(Key(0x00c3_0000_0000_0000), Value(-7), false, Bound::Exact, Depth(-6), None, Value(3), 24);
    assert_eq!(e.value(), Value(-7));
    assert_eq!(e.depth(), Depth(-6));
    assert_eq!(e.bound(), Bound::Exact);
}

#[test]
fn another_position_replaces_the_record_at_any_depth() {
    let mut e = resident();
    e.save(Key(0x00c4_0000_0000_0000), Value(-7), false, Bound::Upper, Depth(-6), None, Value(3), 24);
    assert_eq!(e.key16, 0x00c4);
    assert_eq!(e.value(), Value(-7));
    assert_eq!(e.depth(), Depth(-6));
    assert_eq!(e.bound(), Bound::Upper);
}

#[test]
fn refresh_sets_the_generation_and_keeps_bound_and_flag() {
    let mut e = resident();
    e.refresh(248);
    assert_eq!(e.genbound8, 248 | 4 | 2);
    assert_eq!(e.generation(), 248);
    assert_eq!(e.bound(), Bound::Lower);
    assert!(e.is_pv());
    assert_eq!(e.value(), Value(150));
    e.refresh(0);
    assert_eq!(e.genbound8, 4 | 2);
}

#[test]
fn worth_is_depth_code_less_age_penalty() {
    let e = TTEntry { key16: 1, mv16: 0, value16: 0, eval16: 0, genbound8: 3, depth8: 8 };
    assert_eq!(e.worth(0), 8);
    assert_eq!(e.worth(8), 0);
    assert_eq!(e.worth(16), -8);
    assert_eq!(e.worth(248), 8 - 248);
    let e = TTEntry { key16: 1, mv16: 0, value16: 0, eval16: 0, genbound8: 248 | 7, depth8: 255 };
    assert_eq!(e.worth(248), 255);
    assert_eq!(e.worth(0), 255 - 8);
    assert_eq!(e.worth(240), 255 - 248);
    let e = TTEntry { key16: 1, mv16: 0, value16: 0, eval16: 0, genbound8: 0, depth8: 0 };
    assert_eq!(e.worth(0), 0);
    assert_eq!(e.worth(248), -248);
}
