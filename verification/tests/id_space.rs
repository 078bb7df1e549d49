use id_space::{Graph, IdSpaceError, NodeIdSpace};
use roaring::RoaringTreemap;

/// The node counters of a graph under test: how many nodes are live, and which
/// freed ids wait in the recycle bin.
struct Counters {
    live: u64,
    bin: RoaringTreemap,
}

impl Counters {
    fn graph(&self) -> Graph {
        Graph { node_count: self.live, deleted_nodes_count: self.bin.len() }
    }

    fn create_nodes(&mut self, nodes: &RoaringTreemap, entry_bound: u64) {
        for id in nodes.iter() {
            assert!(id >= entry_bound || self.bin.contains(id), "the graph accepts it");
        }
        self.live += nodes.len();
        self.bin -= nodes;
    }

    fn delete_nodes(&mut self, nodes: &RoaringTreemap) {
        assert!(self.bin.is_disjoint(nodes), "the graph accepts it");
        self.live -= nodes.len();
        self.bin |= nodes;
    }
}

fn graph() -> Counters {
    Counters { live: 0, bin: RoaringTreemap::new() }
}

fn counts(node_count: u64, deleted_nodes_count: u64) -> Graph {
    Graph { node_count, deleted_nodes_count }
}

fn ids(v: &[u64]) -> RoaringTreemap {
    v.iter().copied().collect()
}

fn range(r: std::ops::Range<u64>) -> RoaringTreemap {
    r.collect()
}

fn create(space: &mut NodeIdSpace, g: &mut Counters, nodes: &RoaringTreemap) {
    space.created(nodes).expect("in range");
    g.create_nodes(nodes, space.entry_bound());
}

fn delete(
    space: &NodeIdSpace,
    g: &mut Counters,
    nodes: &RoaringTreemap,
) -> Result<(), IdSpaceError> {
    space.deletable(nodes)?;
    g.delete_nodes(nodes);
    Ok(())
}

#[test]
fn ids_arriving_out_of_order_still_fill_the_range() {
    // The case a boundary derived from the counter cannot express: the high
    // half arrives first, so mid-batch the graph reports its boundary as 100
    // while id 599 is allocated.
    let mut g = graph();
    let mut space = NodeIdSpace::at_entry(&g.graph());

    create(&mut space, &mut g, &range(500..600));
    assert!(
        space.verify(&g.graph()).is_err(),
        "mid-batch the range has a hole, which the graph alone cannot see"
    );

    create(&mut space, &mut g, &range(0..500));
    space.verify(&g.graph()).expect("the batch closed the hole");
    assert_eq!(g.graph().node_count(), 600);
}

#[test]
fn a_hole_left_at_the_end_is_reported() {
    // 500..600 and nothing else. An allocator hands out the lowest free id,
    // so it cannot reach 500 without having handed out 0..499: whoever
    // produced this was not working from the same id space.
    let mut g = graph();
    let mut space = NodeIdSpace::at_entry(&g.graph());
    create(&mut space, &mut g, &range(500..600));

    let err = space.verify(&g.graph()).expect_err("must report the hole");
    assert_eq!(err, IdSpaceError::Hole { entry_bound: 0, highest: 599, ingested: 100 });
}

#[test]
fn an_id_ingested_twice_is_caught_by_the_count() {
    // The set absorbs the duplicate, so the range still looks whole, but the
    // live count moved twice. Only the counter check sees this.
    let mut g = graph();
    let mut space = NodeIdSpace::at_entry(&g.graph());
    create(&mut space, &mut g, &range(0..6));

    // The same id again. The graph cannot refuse it: it is at or above the
    // entry boundary, so it reads as fresh.
    create(&mut space, &mut g, &ids(&[5]));

    let err = space.verify(&g.graph()).expect_err("must report the miscount");
    assert_eq!(err, IdSpaceError::Miscounted { graph_bound: 7, expected: 6 });
}

#[test]
fn a_recycled_id_does_not_grow_the_space() {
    // Ids below the entry boundary were counted in the boundary this started
    // from, so recreating one leaves the range and the count unchanged.
    let mut g = graph();
    let mut space = NodeIdSpace::at_entry(&g.graph());
    create(&mut space, &mut g, &ids(&[0, 1]));
    delete(&space, &mut g, &ids(&[0])).expect("deleting what this batch created");
    space.verify(&g.graph()).expect("whole");

    let mut space = NodeIdSpace::at_entry(&g.graph());
    assert_eq!(space.entry_bound(), 2, "the bin is part of the boundary");
    create(&mut space, &mut g, &ids(&[0]));
    assert_eq!(space.entry_bound(), 2, "and id 0 did not extend it");
    space.verify(&g.graph()).expect("whole again");
}

#[test]
fn creating_deleting_and_recreating_one_id_in_a_batch() {
    // Three commits of one query reach a replica as a single buffer, and the
    // allocator hands the freed id straight back, so `C(0) D(0) C(0)` is
    // legitimate. The recorded ids do not shrink on the delete, so the recreate
    // adds nothing and the range stays whole.
    let mut g = graph();
    let mut space = NodeIdSpace::at_entry(&g.graph());
    create(&mut space, &mut g, &ids(&[0]));
    delete(&space, &mut g, &ids(&[0])).expect("delete");
    create(&mut space, &mut g, &ids(&[0]));
    assert_eq!(g.graph().node_count(), 1);
    space.verify(&g.graph()).expect("whole");
}

#[test]
fn a_cancelled_reservation_arrives_as_a_pair() {
    // What a create-then-delete in one segment ships: both ids created, then
    // one deleted. The id space grew by two and one of them is free.
    let mut g = graph();
    let mut space = NodeIdSpace::at_entry(&g.graph());
    create(&mut space, &mut g, &ids(&[0, 1]));
    delete(&space, &mut g, &ids(&[0])).expect("delete");
    space.verify(&g.graph()).expect("whole");
    assert_eq!(g.graph().node_count(), 1);
    assert_eq!(g.graph().deleted_nodes_count(), 1);
}

#[test]
fn deleting_an_id_never_ingested_is_refused() {
    let mut g = graph();
    let mut space = NodeIdSpace::at_entry(&g.graph());
    create(&mut space, &mut g, &ids(&[0, 1]));

    let err = delete(&space, &mut g, &ids(&[7])).expect_err("7 was never allocated");
    assert_eq!(err, IdSpaceError::NeverIngested(7));
}

#[test]
fn the_first_id_zero_is_not_read_as_already_handed_out() {
    // A boundary taken from the highest live id would read 0 for an empty graph,
    // as "id 0 has been handed out", and refuse this.
    let mut g = graph();
    let mut space = NodeIdSpace::at_entry(&g.graph());
    assert_eq!(space.entry_bound(), 0, "nothing has been handed out");
    create(&mut space, &mut g, &ids(&[0]));
    space.verify(&g.graph()).expect("whole");
}

#[test]
fn the_last_id_is_refused_rather_than_wrapping_the_arithmetic() {
    let g = graph();
    let mut space = NodeIdSpace::at_entry(&g.graph());
    let err = space
        .created(&ids(&[u64::MAX]))
        .expect_err("the top of the id space is not creatable");
    assert_eq!(err, IdSpaceError::IdOutOfRange(u64::MAX));
}

#[test]
fn a_refused_create_records_nothing() {
    let mut space = NodeIdSpace::at_entry(&counts(0, 0));
    assert_eq!(
        space.created(&ids(&[4, u64::MAX])),
        Err(IdSpaceError::IdOutOfRange(u64::MAX))
    );
    assert_eq!(space.verify(&counts(0, 0)), Ok(()));
    assert_eq!(space.deletable(&ids(&[4])), Err(IdSpaceError::NeverIngested(4)));
}

#[test]
fn an_empty_batch_is_whole() {
    let space = NodeIdSpace::at_entry(&counts(3, 4));
    assert_eq!(space.entry_bound(), 7);
    assert_eq!(space.verify(&counts(3, 4)), Ok(()));
    assert_eq!(space.verify(&counts(7, 0)), Ok(()));
}

#[test]
fn creating_nothing_records_nothing() {
    let mut space = NodeIdSpace::at_entry(&counts(2, 0));
    space.created(&RoaringTreemap::new()).expect("in range");
    assert_eq!(space.verify(&counts(2, 0)), Ok(()));
}

#[test]
fn a_batch_that_mixes_recycled_and_new_ids_records_the_new_ones() {
    let mut space = NodeIdSpace::at_entry(&counts(8, 2));
    space.created(&ids(&[1, 3, 10, 11])).expect("in range");
    assert_eq!(space.verify(&counts(12, 0)), Ok(()));
    assert_eq!(
        space.verify(&counts(14, 0)),
        Err(IdSpaceError::Miscounted { graph_bound: 14, expected: 12 })
    );
}

#[test]
fn a_mixed_batch_is_walked_across_distant_ids() {
    let far: u64 = 1 << 40;
    let mut space = NodeIdSpace::at_entry(&counts(10, 0));
    space.created(&ids(&[0, 9, 10, far])).expect("in range");
    assert_eq!(
        space.verify(&counts(12, 0)),
        Err(IdSpaceError::Hole { entry_bound: 10, highest: far, ingested: 2 })
    );
    assert_eq!(space.deletable(&ids(&[10, far])), Ok(()));
    assert_eq!(space.deletable(&ids(&[11, far])), Err(IdSpaceError::NeverIngested(11)));
}

#[test]
fn order_and_grouping_of_records_make_no_difference() {
    let mut forward = NodeIdSpace::at_entry(&counts(5, 0));
    forward.created(&range(5..8)).expect("in range");
    forward.created(&range(20..23)).expect("in range");
    let mut backward = NodeIdSpace::at_entry(&counts(5, 0));
    backward.created(&range(20..23)).expect("in range");
    backward.created(&range(5..8)).expect("in range");
    let mut at_once = NodeIdSpace::at_entry(&counts(5, 0));
    at_once.created(&ids(&[5, 6, 7, 20, 21, 22])).expect("in range");

    let hole = Err(IdSpaceError::Hole { entry_bound: 5, highest: 22, ingested: 6 });
    for space in [&forward, &backward, &at_once] {
        assert_eq!(space.verify(&counts(11, 0)), hole);
        assert_eq!(space.deletable(&range(0..23)), Err(IdSpaceError::NeverIngested(19)));
    }
}

#[test]
fn one_missing_id_is_a_hole_even_if_the_count_agrees() {
    let mut space = NodeIdSpace::at_entry(&counts(0, 0));
    space.created(&ids(&[0, 1, 3])).expect("in range");
    assert_eq!(
        space.verify(&counts(3, 0)),
        Err(IdSpaceError::Hole { entry_bound: 0, highest: 3, ingested: 3 })
    );
}

#[test]
fn a_hole_is_reported_before_a_miscount() {
    let mut space = NodeIdSpace::at_entry(&counts(0, 0));
    space.created(&ids(&[2])).expect("in range");
    assert_eq!(
        space.verify(&counts(u64::MAX, u64::MAX)),
        Err(IdSpaceError::Hole { entry_bound: 0, highest: 2, ingested: 1 })
    );
}

#[test]
fn an_uncounted_id_is_a_miscount() {
    let mut space = NodeIdSpace::at_entry(&counts(1, 1));
    space.created(&ids(&[2, 3])).expect("in range");
    assert_eq!(
        space.verify(&counts(3, 0)),
        Err(IdSpaceError::Miscounted { graph_bound: 3, expected: 4 })
    );
}

#[test]
fn an_allocator_leaves_no_hole() {
    // New ids from the boundary up, recycled ones in between, one id twice.
    let mut space = NodeIdSpace::at_entry(&counts(2, 2));
    for id in [4, 1, 5, 4, 6, 0, 7] {
        space.created(&ids(&[id])).expect("in range");
    }
    assert_eq!(space.verify(&counts(8, 0)), Ok(()));
}

#[test]
fn the_next_batch_starts_where_this_one_ended() {
    let mut space = NodeIdSpace::at_entry(&counts(1, 2));
    space.created(&range(3..9)).expect("in range");
    let g = counts(5, 4);
    assert_eq!(space.verify(&g), Ok(()));
    assert_eq!(NodeIdSpace::at_entry(&g).entry_bound(), 9);
}

#[test]
fn the_highest_unknown_id_is_the_one_named() {
    let mut space = NodeIdSpace::at_entry(&counts(3, 0));
    space.created(&ids(&[3, 4])).expect("in range");
    assert_eq!(space.deletable(&ids(&[0, 2])), Ok(()));
    assert_eq!(space.deletable(&ids(&[0, 3, 4])), Ok(()));
    assert_eq!(space.deletable(&RoaringTreemap::new()), Ok(()));
    assert_eq!(space.deletable(&ids(&[1, 4, 5, 8])), Err(IdSpaceError::NeverIngested(8)));
    assert_eq!(
        space.deletable(&ids(&[4, u64::MAX])),
        Err(IdSpaceError::NeverIngested(u64::MAX))
    );
}

#[test]
fn what_is_deletable_stays_deletable() {
    let mut space = NodeIdSpace::at_entry(&counts(2, 0));
    space.created(&ids(&[2])).expect("in range");
    assert_eq!(space.deletable(&ids(&[1, 2])), Ok(()));
    space.created(&ids(&[3, 9])).expect("in range");
    assert_eq!(space.deletable(&ids(&[1, 2])), Ok(()));
}

#[test]
fn the_space_can_fill_up_to_its_end() {
    let last = u64::MAX - 1;
    let mut space = NodeIdSpace::at_entry(&counts(last, 0));
    space.created(&ids(&[last])).expect("in range");
    assert_eq!(space.verify(&counts(u64::MAX, 0)), Ok(()));
    assert_eq!(
        space.verify(&counts(last, 0)),
        Err(IdSpaceError::Miscounted { graph_bound: last, expected: u64::MAX })
    );
}

#[test]
fn a_boundary_at_the_end_takes_no_new_id() {
    let mut space = NodeIdSpace::at_entry(&counts(u64::MAX - 1, 1));
    assert_eq!(space.entry_bound(), u64::MAX);
    space.created(&ids(&[0, u64::MAX - 1])).expect("recycled");
    assert_eq!(space.verify(&counts(u64::MAX, 0)), Ok(()));
}

#[test]
fn errors_are_told_in_words() {
    assert_eq!(
        IdSpaceError::NeverIngested(7).to_string(),
        "node 7 was never allocated here"
    );
    assert_eq!(
        IdSpaceError::Hole { entry_bound: 0, highest: 599, ingested: 100 }.to_string(),
        "node ids 0..=599 were allocated but only 100 of them created"
    );
    assert_eq!(
        IdSpaceError::Miscounted { graph_bound: 10, expected: 9 }.to_string(),
        "the graph's node id boundary is 10, but the ids ingested put it at 9"
    );
    assert_eq!(
        IdSpaceError::IdOutOfRange(u64::MAX).to_string(),
        "node id 18446744073709551615 is past the end of the id space"
    );
}

#[test]
fn every_digit_is_told() {
    assert_eq!(
        IdSpaceError::NeverIngested(9876543210).to_string(),
        format!("node {} was never allocated here", 9876543210u64)
    );
}
