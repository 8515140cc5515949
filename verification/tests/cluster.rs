use transposition_table::{TTCluster, TTEntry};

fn used(key16: u16, depth8: u8, genbound8: u8) -> TTEntry {
    TTEntry { key16, mv16: 0, value16: 0, eval16: 0, genbound8, depth8 }
}

#[test]
fn empty_cluster_is_all_zero() {
    let c = TTCluster::empty();
    for e in c.entry.iter() {
        assert_eq!(*e, TTEntry::empty());
        assert_eq!(
            *e,
            TTEntry { key16: 0, mv16: 0, value16: 0, eval16: 0, genbound8: 0, depth8: 0 }
        );
    }
    assert_eq!(c.padding, [0, 0]);
}

#[test]
fn reset_makes_a_used_cluster_empty() {
    let mut c = TTCluster {
        entry: [used(1, 2, 3), used(4, 5, 6), used(7, 8, 9)],
        padding: [0xff, 0xee],
    };
    c.reset();
    for e in c.entry.iter() {
        assert_eq!(*e, TTEntry::empty());
    }
    assert_eq!(c.padding, [0, 0]);
}

#[test]
fn select_takes_the_first_unused_or_matching_entry() {
    let c = TTCluster { entry: [used(5, 0, 0), used(0, 0, 0), used(7, 0, 0)], padding: [0, 0] };
    assert_eq!(c.select(5, 0), 0);
    assert_eq!(c.select(7, 0), 1);
    assert_eq!(c.select(9, 0), 1);
    assert_eq!(c.select(0, 0), 1);
    let c = TTCluster { entry: [used(5, 0, 0), used(6, 0, 0), used(7, 0, 0)], padding: [0, 0] };
    assert_eq!(c.select(7, 0), 2);
    assert_eq!(c.select(6, 0), 1);
}

#[test]
fn select_takes_the_least_worth_where_the_cluster_is_full() {
    let c = TTCluster { entry: [used(5, 8, 3), used(6, 7, 3), used(7, 15, 3)], padding: [0, 0] };
    assert_eq!(c.select(9, 0), 1);
    assert_eq!(c.select(9, 8), 1);
    let c = TTCluster { entry: [used(5, 8, 3), used(6, 7, 11), used(7, 15, 3)], padding: [0, 0] };
    assert_eq!(c.select(9, 8), 0);
    let c = TTCluster { entry: [used(5, 9, 11), used(6, 7, 11), used(7, 15, 3)], padding: [0, 0] };
    assert_eq!(c.select(9, 8), 1);
    let c = TTCluster { entry: [used(5, 9, 0), used(6, 9, 0), used(7, 3, 0)], padding: [0, 0] };
    assert_eq!(c.select(9, 0), 2);
    let c = TTCluster { entry: [used(5, 0, 0), used(6, 0, 0), used(7, 0, 0)], padding: [0, 0] };
    assert_eq!(c.select(0, 0), 0);
}
