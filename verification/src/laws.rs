//! What holds of the id space as a whole, over every batch and every graph.
use vstd::prelude::*;

use crate::error::{decimal, IdSpaceError};
use crate::graph::Graph;
use crate::ids::{
    from_bound, interval, is_highest, is_lowest, lemma_highest_exists, lemma_ids_finite,
    lemma_interval_len,
};
use crate::space::{lemma_boundary_fits, lemma_dense_by_count, SpaceModel};

verus! {

/// Recording keeps the space well formed and its entry boundary in place, and
/// no id that was ingested is ever dropped.
pub proof fn law_recording_only_grows(space: SpaceModel, nodes: Set<u64>)
    requires
        space.wf(),
        !nodes.contains(u64::MAX),
    ensures
        space.recording(nodes).wf(),
        space.recording(nodes).entry_bound == space.entry_bound,
        space.ingested.subset_of(space.recording(nodes).ingested),
        space.ingested.len() <= space.recording(nodes).ingested.len(),
{
    lemma_ids_finite(space.recording(nodes).ingested);
    vstd::set_lib::lemma_len_subset(space.ingested, space.recording(nodes).ingested);
}

/// The order in which ids arrive, and how they are split into records, makes no
/// difference.
pub proof fn law_order_of_arrival_is_irrelevant(
    space: SpaceModel,
    first: Set<u64>,
    second: Set<u64>,
)
    ensures
        space.recording(first).recording(second) == space.recording(second).recording(first),
        space.recording(first).recording(second) == space.recording(first.union(second)),
{
    assert(space.recording(first).recording(second) =~= space.recording(second).recording(first));
    assert(space.recording(first).recording(second) =~= space.recording(first.union(second)));
}

/// The space after a batch has created `records`, one after the other.
pub open spec fn recording_all(space: SpaceModel, records: Seq<Set<u64>>) -> SpaceModel
    decreases records.len(),
{
    if records.len() == 0 {
        space
    } else {
        recording_all(space, records.drop_last()).recording(records.last())
    }
}

/// Over a whole batch, what has been ingested is what some record created at or
/// above the entry boundary, and nothing else.
pub proof fn law_ingested_is_what_was_created(space: SpaceModel, records: Seq<Set<u64>>)
    ensures
        recording_all(space, records).entry_bound == space.entry_bound,
        forall|id: u64| #[trigger]
            recording_all(space, records).ingested.contains(id) <==> space.ingested.contains(id) || (
            space.entry_bound <= id && exists|i: int|
                0 <= i < records.len() && #[trigger] records[i].contains(id)),
    decreases records.len(),
{
    if records.len() > 0 {
        let earlier = records.drop_last();
        law_ingested_is_what_was_created(space, earlier);
        assert forall|id: u64| #[trigger]
            recording_all(space, records).ingested.contains(id) <==> space.ingested.contains(id) || (
            space.entry_bound <= id && exists|i: int|
                0 <= i < records.len() && #[trigger] records[i].contains(id)) by {
            assert(recording_all(space, earlier).ingested.contains(id) <==> space.ingested.contains(
                id,
            ) || (space.entry_bound <= id && exists|i: int|
                0 <= i < earlier.len() && #[trigger] earlier[i].contains(id)));
            if exists|i: int| 0 <= i < earlier.len() && #[trigger] earlier[i].contains(id) {
                let i = choose|i: int| 0 <= i < earlier.len() && #[trigger] earlier[i].contains(id);
                assert(records[i].contains(id));
            }
            if exists|i: int| 0 <= i < records.len() && #[trigger] records[i].contains(id) {
                let i = choose|i: int| 0 <= i < records.len() && #[trigger] records[i].contains(id);
                assert(i < earlier.len() ==> earlier[i].contains(id));
            }
        }
    }
}

/// Ids that were recorded already add nothing when they are created again, in
/// part or as a whole.
pub proof fn law_recreating_adds_nothing(space: SpaceModel, nodes: Set<u64>, again: Set<u64>)
    requires
        again.subset_of(nodes),
    ensures
        space.recording(nodes).recording(again) == space.recording(nodes),
{
    assert(space.recording(nodes).recording(again) =~= space.recording(nodes));
}

/// Recycled ids, those below the entry boundary, leave the space as it is.
pub proof fn law_recycled_ids_do_not_grow_the_space(space: SpaceModel, nodes: Set<u64>)
    requires
        forall|id: u64| #[trigger] nodes.contains(id) ==> id < space.entry_bound,
    ensures
        space.recording(nodes) == space,
{
    assert(space.recording(nodes) =~= space);
}

/// A graph that has handed out no id starts a batch at boundary 0, and every id
/// the batch creates, id 0 among them, is new.
pub proof fn law_empty_graph_has_handed_out_nothing(g: Graph, nodes: Set<u64>)
    requires
        g.boundary() == 0,
    ensures
        SpaceModel::entering(g).entry_bound == 0,
        SpaceModel::entering(g).recording(nodes).ingested == nodes,
{
    assert(SpaceModel::entering(g).recording(nodes).ingested =~= nodes);
}

/// The ids that were ingested always leave room for a boundary above them.
pub proof fn law_boundary_never_wraps(space: SpaceModel)
    requires
        space.wf(),
    ensures
        space.expected_boundary() <= u64::MAX,
{
    lemma_boundary_fits(space);
}

/// The space has a hole exactly if some id is missing between the entry boundary
/// and an id that was ingested.
pub proof fn law_hole_is_a_missing_id(space: SpaceModel)
    requires
        space.wf(),
    ensures
        !space.dense() <==> exists|missing: u64, reached: u64|
            {
                &&& space.entry_bound <= missing < reached
                &&& !#[trigger] space.ingested.contains(missing)
                &&& #[trigger] space.ingested.contains(reached)
            },
{
    let lo = space.entry_bound as int;
    if space.ingested == Set::<u64>::empty() {
        assert(space.ingested =~= interval(lo, lo));
    } else {
        let highest = lemma_highest_exists(space.ingested);
        lemma_dense_by_count(space, highest);
        let range = interval(lo, highest + 1);
        lemma_interval_len(lo, highest + 1);
        if space.dense() {
            assert(space.ingested =~= range);
        } else {
            assert(space.ingested.subset_of(range));
            assert(space.ingested != range);
            assert(exists|id: u64| range.contains(id) && !#[trigger] space.ingested.contains(id))
                by {
                if forall|id: u64| range.contains(id) ==> #[trigger] space.ingested.contains(id) {
                    assert(space.ingested =~= range);
                }
            }
            let missing = choose|id: u64|
                range.contains(id) && !#[trigger] space.ingested.contains(id);
            assert(missing < highest);
        }
    }
}

/// Whoever starts above the boundary has missed something: a batch that creates
/// new ids, but not the one at the entry boundary, leaves a hole.
pub proof fn law_batch_off_the_boundary_leaves_a_hole(space: SpaceModel)
    requires
        space.wf(),
        space.ingested != Set::<u64>::empty(),
        !space.ingested.contains(space.entry_bound),
    ensures
        !space.dense(),
{
    let highest = lemma_highest_exists(space.ingested);
    law_hole_is_a_missing_id(space);
    assert(!space.ingested.contains(space.entry_bound) && space.ingested.contains(highest));
}

/// No id at or above `bound` is handed out before everything from `bound` up to
/// it has been: what an allocator does that hands out the lowest free id. Ids
/// below `bound`, and ids handed out a second time, may come at any point.
pub open spec fn lowest_free_first(handed_out: Seq<u64>, bound: u64) -> bool {
    forall|i: int, below: u64|
        0 <= i < handed_out.len() && bound <= below < #[trigger] handed_out[i]
            ==> #[trigger] handed_out.take(i).contains(below)
}

/// An allocator leaves no hole: whatever it hands out over a batch, in whatever
/// order the ids arrive, the ids fill the range from the entry boundary upward.
pub proof fn law_allocator_leaves_no_hole(g: Graph, handed_out: Seq<u64>)
    requires
        g.boundary() <= u64::MAX,
        !handed_out.contains(u64::MAX),
        lowest_free_first(handed_out, g.boundary() as u64),
    ensures
        SpaceModel::entering(g).recording(handed_out.to_set()).dense(),
{
    let bound = g.boundary() as u64;
    let space = SpaceModel::entering(g).recording(handed_out.to_set());
    assert(space.wf());
    law_hole_is_a_missing_id(space);
    assert forall|missing: u64, reached: u64|
        bound <= missing < reached && #[trigger] space.ingested.contains(
            reached,
        ) implies #[trigger] space.ingested.contains(missing) by {
        let i = choose|i: int| 0 <= i < handed_out.len() && handed_out[i] == reached;
        assert(handed_out.take(i).contains(missing));
        let j = choose|j: int| 0 <= j < i && handed_out.take(i)[j] == missing;
        assert(handed_out[j] == missing);
    }
}

/// A batch whose new ids are exactly a range that begins at the entry boundary is
/// dense, and puts the boundary at the end of that range.
pub proof fn law_filling_a_range_moves_the_boundary_to_its_end(g: Graph, nodes: Set<u64>, end: u64)
    requires
        g.boundary() <= end,
        from_bound(nodes, g.boundary() as u64) == interval(g.boundary() as int, end as int),
    ensures
        SpaceModel::entering(g).recording(nodes).dense(),
        SpaceModel::entering(g).recording(nodes).expected_boundary() == end,
{
    let space = SpaceModel::entering(g).recording(nodes);
    lemma_interval_len(g.boundary() as int, end as int);
    assert(space.ingested =~= interval(g.boundary() as int, end as int));
}

/// Every space gives one verdict on a graph, and no more than one.
pub proof fn law_verdict_is_unique(space: SpaceModel, graph_bound: nat) -> (verdict: Result<
    (),
    IdSpaceError,
>)
    requires
        space.wf(),
        graph_bound <= u64::MAX,
    ensures
        space.judges(graph_bound, verdict),
        forall|other: Result<(), IdSpaceError>| #[trigger]
            space.judges(graph_bound, other) ==> other == verdict,
{
    lemma_boundary_fits(space);
    let verdict = if space.dense() {
        if graph_bound == space.expected_boundary() {
            Ok(())
        } else {
            Err(
                IdSpaceError::Miscounted {
                    graph_bound: graph_bound as u64,
                    expected: space.expected_boundary() as u64,
                },
            )
        }
    } else {
        let lo = space.entry_bound as int;
        assert(space.ingested != Set::<u64>::empty()) by {
            if space.ingested == Set::<u64>::empty() {
                assert(space.ingested =~= interval(lo, lo));
            }
        }
        Err(
            IdSpaceError::Hole {
                entry_bound: space.entry_bound,
                highest: lemma_highest_exists(space.ingested),
                ingested: space.ingested.len() as u64,
            },
        )
    };
    assert forall|other: Result<(), IdSpaceError>| #[trigger]
        space.judges(graph_bound, other) implies other == verdict by {
        match other {
            Ok(unit) => {
                assert(unit == ());
            },
            Err(IdSpaceError::Hole { highest, .. }) => {
                assert(space.ingested.contains(highest));
            },
            Err(_) => {},
        }
    }
    verdict
}

/// The two checks are independent. A space with a hole is refused although the
/// graph counted every ingested id once, and a dense one is refused wherever
/// else than at the expected boundary the graph's counters stand.
pub proof fn law_neither_check_subsumes_the_other(
    space: SpaceModel,
    graph_bound: nat,
    verdict: Result<(), IdSpaceError>,
)
    requires
        space.judges(graph_bound, verdict),
    ensures
        !space.dense() && graph_bound == space.expected_boundary() ==> (verdict matches Err(
            e,
        ) && e is Hole),
        space.dense() && graph_bound != space.expected_boundary() ==> (verdict matches Err(
            e,
        ) && e is Miscounted),
{
}

/// Ids that a batch ingests twice, and that the graph counts twice, are caught by
/// the count alone: the space is as dense as it was, and the miscount tells by how
/// many ids the graph is off.
pub proof fn law_double_count_is_reported(space: SpaceModel, nodes: Set<u64>, again: Set<u64>)
    requires
        space.recording(nodes).wf(),
        space.recording(nodes).dense(),
        again.subset_of(nodes),
        again != Set::<u64>::empty(),
        space.recording(nodes).expected_boundary() + again.len() <= u64::MAX,
    ensures
        ({
            let after = space.recording(nodes).recording(again);
            let counted = space.recording(nodes).expected_boundary() + again.len();
            &&& after.dense()
            &&& after.judges(
                counted,
                Err(
                    IdSpaceError::Miscounted {
                        graph_bound: counted as u64,
                        expected: (counted - again.len()) as u64,
                    },
                ),
            )
        }),
{
    law_recreating_adds_nothing(space, nodes, again);
    lemma_ids_finite(again);
    if again.len() == 0 {
        again.lemma_len0_is_empty();
    }
}

/// A delete frees ids and un-allocates none: nodes that move from the live count
/// to the recycle bin leave the boundary, and with it every verdict, as it was.
/// So does handing freed ids out again.
pub proof fn law_deleting_leaves_the_verdict(
    space: SpaceModel,
    before: Graph,
    after: Graph,
    freed: int,
    verdict: Result<(), IdSpaceError>,
)
    requires
        after.node_count == before.node_count - freed,
        after.deleted_nodes_count == before.deleted_nodes_count + freed,
    ensures
        after.boundary() == before.boundary(),
        space.judges(after.boundary(), verdict) <==> space.judges(before.boundary(), verdict),
{
}

/// A batch that creates nothing passes.
pub proof fn law_empty_batch_is_whole(g: Graph)
    requires
        g.boundary() <= u64::MAX,
    ensures
        SpaceModel::entering(g).wf(),
        SpaceModel::entering(g).judges(g.boundary(), Ok(())),
{
    let space = SpaceModel::entering(g);
    assert(space.ingested =~= interval(space.entry_bound as int, space.entry_bound as int));
}

/// Density holds between batches: after a batch that passed, the graph's own
/// counters are the boundary of what was handed out before the batch and by it,
/// and the next batch starts there.
pub proof fn law_next_batch_starts_where_this_one_ended(space: SpaceModel, g: Graph)
    requires
        space.wf(),
        space.judges(g.boundary(), Ok(())),
    ensures
        g.boundary() <= u64::MAX,
        SpaceModel::entering(g).entry_bound == space.expected_boundary(),
        forall|id: u64|
            id < SpaceModel::entering(g).entry_bound <==> id < space.entry_bound
                || #[trigger] space.ingested.contains(id),
{
    lemma_boundary_fits(space);
}

/// What the batch has created, and what was handed out before it, may be deleted.
pub proof fn law_allocated_ids_are_deletable(space: SpaceModel, nodes: Set<u64>, doomed: Set<u64>)
    requires
        forall|id: u64| #[trigger]
            doomed.contains(id) ==> nodes.contains(id) || id < space.entry_bound,
    ensures
        space.recording(nodes).answers_delete(doomed, Ok(())),
{
    assert(space.recording(nodes).never_held(doomed) =~= Set::<u64>::empty());
}

/// What may be deleted stays deletable while the batch creates more.
pub proof fn law_deletable_stays_deletable(space: SpaceModel, nodes: Set<u64>, doomed: Set<u64>)
    requires
        space.answers_delete(doomed, Ok(())),
    ensures
        space.recording(nodes).answers_delete(doomed, Ok(())),
{
    assert forall|id: u64| !space.recording(nodes).never_held(doomed).contains(id) by {
        assert(!space.never_held(doomed).contains(id));
    }
    assert(space.recording(nodes).never_held(doomed) =~= Set::<u64>::empty());
}

/// Every delete gets one answer, and no more than one.
pub proof fn law_answer_to_a_delete_is_unique(space: SpaceModel, doomed: Set<u64>) -> (answer:
    Result<(), IdSpaceError>)
    ensures
        space.answers_delete(doomed, answer),
        forall|other: Result<(), IdSpaceError>| #[trigger]
            space.answers_delete(doomed, other) ==> other == answer,
{
    let answer = if space.never_held(doomed) == Set::<u64>::empty() {
        Ok(())
    } else {
        Err(IdSpaceError::NeverIngested(lemma_highest_exists(space.never_held(doomed))))
    };
    assert forall|other: Result<(), IdSpaceError>| #[trigger]
        space.answers_delete(doomed, other) implies other == answer by {
        match other {
            Ok(unit) => {
                assert(unit == ());
            },
            Err(IdSpaceError::NeverIngested(id)) => {
                assert(space.never_held(doomed).contains(id));
            },
            Err(_) => {},
        }
    }
    answer
}

/// A batch starts where the graph's two counters, added up, put the boundary, and
/// it starts with nothing ingested.
pub proof fn law_batch_enters_at_the_sum_of_the_counters(g: Graph)
    requires
        g.node_count + g.deleted_nodes_count <= u64::MAX,
    ensures
        g.boundary() == g.node_count + g.deleted_nodes_count,
        SpaceModel::entering(g).entry_bound as int == g.node_count + g.deleted_nodes_count,
        forall|id: u64| !SpaceModel::entering(g).ingested.contains(id),
{
}

/// Every node more, live or freed, moves the boundary up by one, and two graphs
/// have the same boundary only if their counters add up to the same.
pub proof fn law_every_counted_id_moves_the_boundary(g: Graph, other: Graph)
    ensures
        other.node_count == g.node_count + 1 && other.deleted_nodes_count
            == g.deleted_nodes_count ==> other.boundary() == g.boundary() + 1,
        other.node_count == g.node_count && other.deleted_nodes_count == g.deleted_nodes_count
            + 1 ==> other.boundary() == g.boundary() + 1,
        g.boundary() == other.boundary() <==> g.node_count + g.deleted_nodes_count
            == other.node_count + other.deleted_nodes_count,
        g.node_count == 0 && g.deleted_nodes_count == 0 ==> g.boundary() == 0,
{
}

/// A space holds ids from the entry boundary up to, and without, the last one,
/// and may hold any of them.
pub proof fn law_well_formed_spaces(space: SpaceModel)
    ensures
        space.wf() <==> forall|id: u64| #[trigger]
            space.ingested.contains(id) ==> space.entry_bound <= id && id != u64::MAX,
{
}

/// One record adds exactly those of its ids that are at or above the entry
/// boundary, and moves nothing else.
pub proof fn law_record_adds_its_new_ids(space: SpaceModel, nodes: Set<u64>, id: u64)
    ensures
        space.recording(nodes).entry_bound == space.entry_bound,
        space.recording(nodes).ingested.contains(id) <==> space.ingested.contains(id) || (
        nodes.contains(id) && space.entry_bound <= id),
{
}

/// The boundary that is expected is the entry boundary and one more for each
/// ingested id: a new id moves it up by one, an id that was ingested already or
/// is recycled leaves it.
pub proof fn law_every_new_id_moves_the_expected_boundary(space: SpaceModel, id: u64)
    ensures
        space.expected_boundary() == space.entry_bound + space.ingested.len(),
        space.recording(set![id]).expected_boundary() == space.expected_boundary() + (if id
            < space.entry_bound || space.ingested.contains(id) {
            0int
        } else {
            1int
        }),
{
    lemma_ids_finite(space.ingested);
    if id < space.entry_bound || space.ingested.contains(id) {
        assert(space.recording(set![id]).ingested =~= space.ingested);
    } else {
        assert(space.recording(set![id]).ingested =~= space.ingested.insert(id));
    }
}

/// A delete is refused exactly if it names an id at or above the entry boundary
/// that is not among the ingested ones. The refusal names such an id, and the
/// delete names no higher one.
pub proof fn law_never_allocated_ids_are_refused(
    space: SpaceModel,
    doomed: Set<u64>,
    answer: Result<(), IdSpaceError>,
)
    requires
        space.answers_delete(doomed, answer),
    ensures
        answer is Err <==> exists|id: u64| #[trigger]
            doomed.contains(id) && space.entry_bound <= id && !space.ingested.contains(id),
        answer matches Err(e) ==> {
            &&& e matches IdSpaceError::NeverIngested(named)
            &&& doomed.contains(named)
            &&& space.entry_bound <= named
            &&& !space.ingested.contains(named)
            &&& forall|id: u64| #[trigger]
                doomed.contains(id) && space.entry_bound <= id && !space.ingested.contains(id)
                    ==> id <= named
        },
{
    assert forall|id: u64| #[trigger]
        doomed.contains(id) && space.entry_bound <= id && !space.ingested.contains(
            id,
        ) implies space.never_held(doomed).contains(id) by {}
}

/// To create what a refusal names lifts that refusal: the same delete then passes,
/// or it is refused for a lower id.
pub proof fn law_creating_the_named_id_lifts_the_refusal(
    space: SpaceModel,
    doomed: Set<u64>,
    named: u64,
    answer: Result<(), IdSpaceError>,
)
    requires
        space.answers_delete(doomed, Err(IdSpaceError::NeverIngested(named))),
        space.recording(set![named]).answers_delete(doomed, answer),
    ensures
        answer matches Err(e) ==> (e matches IdSpaceError::NeverIngested(lower) && lower < named),
{
    law_never_allocated_ids_are_refused(
        space,
        doomed,
        Err(IdSpaceError::NeverIngested(named)),
    );
    law_never_allocated_ids_are_refused(space.recording(set![named]), doomed, answer);
    assert forall|id: u64| space.ingested.contains(id) implies #[trigger] space.recording(
        set![named],
    ).ingested.contains(id) by {}
    assert(space.recording(set![named]).ingested.contains(named));
}

/// A batch passes exactly if its ids are those from the entry boundary up to where
/// the graph's two counters add up to, so that the graph has counted each of them
/// once.
pub proof fn law_batch_passes_if_filled_and_counted(space: SpaceModel, g: Graph)
    requires
        space.wf(),
    ensures
        space.judges(g.boundary(), Ok(())) <==> {
            &&& g.node_count + g.deleted_nodes_count == space.entry_bound + space.ingested.len()
            &&& forall|id: u64| #[trigger]
                space.ingested.contains(id) <==> space.entry_bound <= id < g.node_count
                    + g.deleted_nodes_count
        },
{
    let total = g.node_count + g.deleted_nodes_count;
    if total == space.entry_bound + space.ingested.len() && (forall|id: u64| #[trigger]
        space.ingested.contains(id) <==> space.entry_bound <= id < total) {
        assert(space.ingested =~= interval(
            space.entry_bound as int,
            space.expected_boundary() as int,
        ));
    }
}

/// No space passes two graphs whose counters add up to different totals.
pub proof fn law_only_one_total_passes(space: SpaceModel, g: Graph, other: Graph)
    requires
        space.judges(g.boundary(), Ok(())),
        space.judges(other.boundary(), Ok(())),
    ensures
        g.node_count + g.deleted_nodes_count == other.node_count + other.deleted_nodes_count,
{
}

/// Two spaces that entered at the same boundary and both pass the same graph have
/// ingested the same ids.
pub proof fn law_one_graph_passes_one_set_of_ids(space: SpaceModel, other: SpaceModel, g: Graph)
    requires
        space.wf(),
        other.wf(),
        space.entry_bound == other.entry_bound,
        space.judges(g.boundary(), Ok(())),
        other.judges(g.boundary(), Ok(())),
    ensures
        space.ingested == other.ingested,
{
    law_batch_passes_if_filled_and_counted(space, g);
    law_batch_passes_if_filled_and_counted(other, g);
    assert(space.ingested =~= other.ingested);
}

/// A verdict is a hole exactly if an id is missing below one that was ingested. It
/// tells the entry boundary, the highest of the ingested ids and how many they are,
/// and they are too few to reach that far.
pub proof fn law_hole_tells_what_was_reached(
    space: SpaceModel,
    g: Graph,
    verdict: Result<(), IdSpaceError>,
)
    requires
        space.wf(),
        space.judges(g.boundary(), verdict),
    ensures
        (verdict matches Err(e) && e is Hole) <==> exists|missing: u64, reached: u64|
            {
                &&& space.entry_bound <= missing < reached
                &&& !#[trigger] space.ingested.contains(missing)
                &&& #[trigger] space.ingested.contains(reached)
            },
        verdict matches Err(IdSpaceError::Hole { entry_bound, highest, ingested }) ==> {
            &&& entry_bound == space.entry_bound
            &&& space.ingested.contains(highest)
            &&& forall|id: u64| #[trigger] space.ingested.contains(id) ==> id <= highest
            &&& ingested == space.ingested.len()
            &&& ingested - 1 < highest - entry_bound
        },
{
    law_hole_is_a_missing_id(space);
    if let Err(IdSpaceError::Hole { entry_bound, highest, ingested }) = verdict {
        lemma_dense_by_count(space, highest);
    }
}

/// A verdict is a miscount exactly if no id is missing and the graph's counters add
/// up to another total than the ingested ids put there, too many or too few. It
/// tells the graph's total and the one that was expected.
pub proof fn law_miscount_tells_both_totals(
    space: SpaceModel,
    g: Graph,
    verdict: Result<(), IdSpaceError>,
)
    requires
        space.wf(),
        space.judges(g.boundary(), verdict),
    ensures
        (verdict matches Err(e) && e is Miscounted) <==> {
            &&& g.node_count + g.deleted_nodes_count != space.entry_bound + space.ingested.len()
            &&& forall|missing: u64, reached: u64|
                space.entry_bound <= missing < reached
                    && #[trigger] space.ingested.contains(reached)
                    ==> #[trigger] space.ingested.contains(missing)
        },
        verdict matches Err(IdSpaceError::Miscounted { graph_bound, expected }) ==> {
            &&& graph_bound as int == g.node_count + g.deleted_nodes_count
            &&& expected as int == space.entry_bound + space.ingested.len()
            &&& graph_bound != expected
        },
{
    law_hole_is_a_missing_id(space);
}

/// The end of a batch is judged by a hole, a miscount or a pass, and by no other
/// error.
pub proof fn law_verdict_is_hole_miscount_or_pass(
    space: SpaceModel,
    g: Graph,
    verdict: Result<(), IdSpaceError>,
)
    requires
        space.judges(g.boundary(), verdict),
    ensures
        verdict matches Err(e) ==> e is Hole || e is Miscounted,
{
}

/// An interval holds the ids between its ends, the lower one with them.
pub proof fn law_interval_members(lo: int, hi: int, id: u64)
    ensures
        interval(lo, hi).contains(id) <==> lo <= id && id < hi,
{
}

/// The ids from a bound are those that are not below it.
pub proof fn law_from_bound_members(ids: Set<u64>, bound: u64, id: u64)
    ensures
        from_bound(ids, bound).contains(id) <==> ids.contains(id) && !(id < bound),
{
}

/// The highest and the lowest id of a set are in it, and no other id of it is
/// beyond them.
pub proof fn law_highest_and_lowest(ids: Set<u64>, id: u64)
    ensures
        is_highest(ids, id) <==> ids.contains(id) && !(exists|other: u64| #[trigger]
            ids.contains(other) && other > id),
        is_lowest(ids, id) <==> ids.contains(id) && !(exists|other: u64| #[trigger]
            ids.contains(other) && other < id),
{
}

/// Decimal is place notation: below ten a number is its own digit, and a digit that
/// is put behind a number other than zero adds itself to ten times that number.
pub proof fn law_decimal_is_place_notation(n: nat, d: nat)
    requires
        d < 10,
    ensures
        decimal(d).len() == 1,
        decimal(d)[0] as int == '0' as int + d,
        n > 0 ==> decimal(10 * n + d) == decimal(n) + decimal(d),
{
    if n > 0 {
        assert((10 * n + d) / 10 == n);
        assert((10 * n + d) % 10 == d);
        assert(decimal(10 * n + d) =~= decimal(n) + decimal(d));
    }
}

/// A number in decimal is digits only, with no zero in front of others.
pub proof fn law_decimal_is_digits(n: nat)
    ensures
        decimal(n).len() > 0,
        forall|i: int| 0 <= i < decimal(n).len() ==> '0' <= #[trigger] decimal(n)[i] <= '9',
        n >= 10 ==> decimal(n).len() > 1 && decimal(n)[0] != '0',
    decreases n,
{
    if n >= 10 {
        law_decimal_is_digits(n / 10);
    }
}

/// Numbers that read the same in decimal are the same.
pub proof fn law_decimal_tells_numbers_apart(m: nat, n: nat)
    requires
        decimal(m) == decimal(n),
    ensures
        m == n,
    decreases m,
{
    law_decimal_is_digits(m);
    law_decimal_is_digits(n);
    assert(decimal(m).last() as int == 48 + m % 10);
    assert(decimal(n).last() as int == 48 + n % 10);
    if m >= 10 {
        assert(decimal(m).drop_last() =~= decimal(m / 10));
        assert(decimal(n).drop_last() =~= decimal(n / 10));
        law_decimal_tells_numbers_apart(m / 10, n / 10);
    }
}

/// Where a number in decimal is followed by something other than a digit, or by
/// nothing, what is read tells the number and what follows.
proof fn lemma_number_then_text(m: nat, rest_m: Seq<char>, n: nat, rest_n: Seq<char>)
    requires
        decimal(m) + rest_m == decimal(n) + rest_n,
        rest_m.len() > 0 ==> !('0' <= rest_m[0] <= '9'),
        rest_n.len() > 0 ==> !('0' <= rest_n[0] <= '9'),
    ensures
        m == n,
        rest_m == rest_n,
{
    law_decimal_is_digits(m);
    law_decimal_is_digits(n);
    let text = decimal(m) + rest_m;
    let len_m = decimal(m).len() as int;
    let len_n = decimal(n).len() as int;
    assert(text.len() == len_m + rest_m.len() == len_n + rest_n.len());
    if len_m < len_n {
        assert(text[len_m] == rest_m[0]);
        assert(text[len_m] == decimal(n)[len_m]);
    }
    if len_n < len_m {
        assert(text[len_n] == rest_n[0]);
        assert(text[len_n] == decimal(m)[len_n]);
    }
    assert(decimal(m) =~= text.take(len_m));
    assert(decimal(n) =~= text.take(len_n));
    assert(rest_m =~= text.skip(len_m));
    assert(rest_n =~= text.skip(len_n));
    law_decimal_tells_numbers_apart(m, n);
}

/// Texts that begin alike and read the same go on alike.
proof fn lemma_same_beginning(start: Seq<char>, a: Seq<char>, b: Seq<char>)
    requires
        start + a == start + b,
    ensures
        a == b,
{
    assert(a =~= (start + a).skip(start.len() as int));
    assert(b =~= (start + b).skip(start.len() as int));
}

/// How an error is told up to its first number, that number, and what follows.
spec fn told(e: IdSpaceError) -> (Seq<char>, nat, Seq<char>) {
    match e {
        IdSpaceError::NeverIngested(id) => ("node "@, id as nat, " was never allocated here"@),
        IdSpaceError::Hole { entry_bound, highest, ingested } => (
            "node ids "@,
            entry_bound as nat,
            "..="@ + (decimal(highest as nat) + (" were allocated but only "@ + (decimal(
                ingested as nat,
            ) + " of them created"@))),
        ),
        IdSpaceError::Miscounted { graph_bound, expected } => (
            "the graph's node id boundary is "@,
            graph_bound as nat,
            ", but the ids ingested put it at "@ + decimal(expected as nat),
        ),
        IdSpaceError::IdOutOfRange(id) => (
            "node id "@,
            id as nat,
            " is past the end of the id space"@,
        ),
    }
}

/// An error is told in these parts, and what follows its first number is no digit.
proof fn lemma_told_in_parts(e: IdSpaceError)
    ensures
        e.message() == told(e).0 + (decimal(told(e).1) + told(e).2),
        told(e).2.len() > 0,
        !('0' <= told(e).2[0] <= '9'),
{
    reveal_strlit(" was never allocated here");
    reveal_strlit("..=");
    reveal_strlit(", but the ids ingested put it at ");
    reveal_strlit(" is past the end of the id space");
    assert(e.message() =~= told(e).0 + (decimal(told(e).1) + told(e).2));
}

/// How an error is told begins differently for each kind of error.
proof fn lemma_kinds_begin_differently(e: IdSpaceError)
    ensures
        match e {
            IdSpaceError::NeverIngested(_) => e.message()[0] == 'n' && '0' <= e.message()[5]
                <= '9',
            IdSpaceError::Hole { .. } => e.message()[0] == 'n' && e.message()[5] == 'i'
                && e.message()[7] == 's',
            IdSpaceError::Miscounted { .. } => e.message()[0] == 't',
            IdSpaceError::IdOutOfRange(_) => e.message()[0] == 'n' && e.message()[5] == 'i'
                && e.message()[7] == ' ',
        },
{
    reveal_strlit("node ");
    reveal_strlit("node ids ");
    reveal_strlit("the graph's node id boundary is ");
    reveal_strlit("node id ");
    if let IdSpaceError::NeverIngested(id) = e {
        law_decimal_is_digits(id as nat);
        assert(e.message()[5] == decimal(id as nat)[0]);
    }
}

/// Each error is told in its own words, with its ids and counts in decimal where
/// they belong.
pub proof fn law_errors_are_told_in_words(a: u64, b: u64, c: u64)
    ensures
        IdSpaceError::NeverIngested(a).message() == "node "@ + decimal(a as nat)
            + " was never allocated here"@,
        (IdSpaceError::Hole { entry_bound: a, highest: b, ingested: c }).message() == "node ids "@
            + decimal(a as nat) + "..="@ + decimal(b as nat) + " were allocated but only "@
            + decimal(c as nat) + " of them created"@,
        (IdSpaceError::Miscounted { graph_bound: a, expected: b }).message()
            == "the graph's node id boundary is "@ + decimal(a as nat)
            + ", but the ids ingested put it at "@ + decimal(b as nat),
        IdSpaceError::IdOutOfRange(a).message() == "node id "@ + decimal(a as nat)
            + " is past the end of the id space"@,
{
}

/// The words tell which error it is, and every id and count in it: different errors
/// are never told alike.
pub proof fn law_words_tell_errors_apart(e: IdSpaceError, other: IdSpaceError)
    requires
        e.message() == other.message(),
    ensures
        e == other,
{
    lemma_kinds_begin_differently(e);
    lemma_kinds_begin_differently(other);
    lemma_told_in_parts(e);
    lemma_told_in_parts(other);
    let (start, first, rest) = told(e);
    let (other_start, other_first, other_rest) = told(other);
    assert(start == other_start);
    lemma_same_beginning(start, decimal(first) + rest, decimal(other_first) + other_rest);
    lemma_number_then_text(first, rest, other_first, other_rest);
    match (e, other) {
        (
            IdSpaceError::Hole { highest, ingested, .. },
            IdSpaceError::Hole { highest: other_highest, ingested: other_ingested, .. },
        ) => {
            reveal_strlit(" were allocated but only ");
            reveal_strlit(" of them created");
            let only = " were allocated but only "@;
            let end = " of them created"@;
            let tail = decimal(ingested as nat) + end;
            let other_tail = decimal(other_ingested as nat) + end;
            lemma_same_beginning(
                "..="@,
                decimal(highest as nat) + (only + tail),
                decimal(other_highest as nat) + (only + other_tail),
            );
            lemma_number_then_text(
                highest as nat,
                only + tail,
                other_highest as nat,
                only + other_tail,
            );
            lemma_same_beginning(only, tail, other_tail);
            lemma_number_then_text(ingested as nat, end, other_ingested as nat, end);
        },
        (
            IdSpaceError::Miscounted { expected, .. },
            IdSpaceError::Miscounted { expected: other_expected, .. },
        ) => {
            lemma_same_beginning(
                ", but the ids ingested put it at "@,
                decimal(expected as nat),
                decimal(other_expected as nat),
            );
            law_decimal_tells_numbers_apart(expected as nat, other_expected as nat);
        },
        _ => {},
    }
}

} // verus!
