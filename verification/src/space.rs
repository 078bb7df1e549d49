//! A graph's node id space across one batch of ingested ids.
use roaring::RoaringTreemap;
use vstd::prelude::*;

use crate::error::IdSpaceError;
use crate::graph::Graph;
use crate::ids::{
    from_bound, interval, is_highest, lemma_interval_len, lemma_len_within_interval,
};
use crate::treemap::{contents, difference, next_id, unite, upcoming};

verus! {

/// What a [`NodeIdSpace`] knows, as mathematical values.
#[verifier::ext_equal]
pub struct SpaceModel {
    /// The boundary as it stood before the batch.
    pub entry_bound: u64,
    /// The ids at or above it that the batch has ingested.
    pub ingested: Set<u64>,
}

impl SpaceModel {
    /// The space before a batch on `g`: nothing ingested yet.
    pub open spec fn entering(g: Graph) -> SpaceModel {
        SpaceModel { entry_bound: g.boundary() as u64, ingested: Set::empty() }
    }

    /// Only ids at or above the entry boundary are held, and never `u64::MAX`,
    /// which has no boundary above it.
    pub open spec fn wf(self) -> bool {
        forall|id: u64| #[trigger]
            self.ingested.contains(id) ==> self.entry_bound <= id < u64::MAX
    }

    /// Where the ingested ids put the boundary.
    pub open spec fn expected_boundary(self) -> nat {
        self.entry_bound as nat + self.ingested.len()
    }

    /// The ingested ids fill the range from the entry boundary upward.
    pub open spec fn dense(self) -> bool {
        self.ingested == interval(self.entry_bound as int, self.expected_boundary() as int)
    }

    /// The space after the batch has also created `nodes`. Ids below the entry
    /// boundary are recycled, and the space does not grow by them.
    pub open spec fn recording(self, nodes: Set<u64>) -> SpaceModel {
        SpaceModel {
            entry_bound: self.entry_bound,
            ingested: self.ingested.union(from_bound(nodes, self.entry_bound)),
        }
    }

    /// The ids of `nodes` that nothing has ever held: not before the batch, and
    /// not by it.
    pub open spec fn never_held(self, nodes: Set<u64>) -> Set<u64> {
        from_bound(nodes, self.entry_bound).difference(self.ingested)
    }

    /// `answer` is what a delete of `nodes` is told: the highest id among them
    /// that nothing has ever held, if there is one.
    pub open spec fn answers_delete(
        self,
        nodes: Set<u64>,
        answer: Result<(), IdSpaceError>,
    ) -> bool {
        match answer {
            Ok(()) => self.never_held(nodes) == Set::<u64>::empty(),
            Err(IdSpaceError::NeverIngested(id)) => is_highest(self.never_held(nodes), id),
            Err(_) => false,
        }
    }

    /// `verdict` is what the space says of a graph whose boundary is
    /// `graph_bound`: a hole first, then a miscount, and otherwise that all is
    /// well.
    pub open spec fn judges(self, graph_bound: nat, verdict: Result<(), IdSpaceError>) -> bool {
        match verdict {
            Ok(()) => self.dense() && graph_bound == self.expected_boundary(),
            Err(IdSpaceError::Hole { entry_bound, highest, ingested }) => {
                &&& !self.dense()
                &&& entry_bound == self.entry_bound
                &&& is_highest(self.ingested, highest)
                &&& ingested == self.ingested.len()
            },
            Err(IdSpaceError::Miscounted { graph_bound: found, expected }) => {
                &&& self.dense()
                &&& graph_bound != self.expected_boundary()
                &&& found == graph_bound
                &&& expected == self.expected_boundary()
            },
            Err(_) => false,
        }
    }
}

/// The ids that were ingested leave room for a boundary above them.
pub proof fn lemma_boundary_fits(space: SpaceModel)
    requires
        space.wf(),
    ensures
        space.ingested.finite(),
        space.expected_boundary() <= u64::MAX,
{
    lemma_len_within_interval(space.ingested, space.entry_bound as int, u64::MAX as int);
}

/// The ingested ids are dense exactly if they are as many as the range from the
/// entry boundary to the highest of them holds.
pub proof fn lemma_dense_by_count(space: SpaceModel, highest: u64)
    requires
        space.wf(),
        is_highest(space.ingested, highest),
    ensures
        0 < space.ingested.len() <= highest - space.entry_bound + 1,
        space.dense() <==> space.ingested.len() - 1 == highest - space.entry_bound,
{
    let lo = space.entry_bound as int;
    let len = space.ingested.len();
    lemma_boundary_fits(space);
    assert(space.ingested.subset_of(interval(lo, highest + 1)));
    lemma_len_within_interval(space.ingested, lo, highest + 1);
    if space.dense() {
        lemma_interval_len(lo, highest + 1);
        let last = (lo + len - 1) as u64;
        assert(interval(lo, lo + len).contains(last));
        assert(interval(lo, lo + len).contains(highest));
    }
}

/// A graph's node id space, observed across one batch of ingested ids.
///
/// Built before the batch, told what it creates, and checked once at the end.
/// It decides nothing while the batch runs. The graph itself already refuses to
/// create an id that is live below the boundary, so this records and then
/// judges, rather than gating each step.
pub struct NodeIdSpace {
    /// The boundary as it stood before the batch: ids below it were handed out,
    /// ids at or above it never were.
    entry_bound: u64,
    /// Every id at or above `entry_bound` this batch has ingested. Only grows:
    /// a later delete does not un-allocate an id, it frees one that was.
    ingested: RoaringTreemap,
}

impl View for NodeIdSpace {
    type V = SpaceModel;

    closed spec fn view(&self) -> SpaceModel {
        SpaceModel { entry_bound: self.entry_bound, ingested: contents(self.ingested) }
    }
}

impl NodeIdSpace {
    /// The id space as it stands before a batch.
    ///
    /// Live nodes and recycled ids together are the boundary *because* this is
    /// taken between batches, where the id space is dense. That assumption is
    /// stated once, here, rather than implied by an accessor every caller has to
    /// know not to trust.
    ///
    /// A graph that has handed out no id gives the boundary 0, so that id 0 is
    /// not read as handed out.
    #[must_use]
    pub fn at_entry(g: &Graph) -> (space: Self)
        requires
            g.boundary() <= u64::MAX,
        ensures
            space@.wf(),
            space@ == SpaceModel::entering(*g),
            space@.entry_bound == g.boundary(),
            space@.entry_bound as int == g.node_count + g.deleted_nodes_count,
            forall|id: u64| !space@.ingested.contains(id),
    {
        Self {
            entry_bound: g.node_count() + g.deleted_nodes_count(),
            ingested: RoaringTreemap::new(),
        }
    }

    /// The boundary as it stood before the batch.
    #[must_use]
    pub fn entry_bound(&self) -> (bound: u64)
        ensures
            bound == self@.entry_bound,
    {
        self.entry_bound
    }

    /// Record ids the batch creates.
    ///
    /// Ids below the entry boundary are recycled rather than new, so they are
    /// not the id space growing and are not recorded. The graph has already
    /// refused any of them that were live.
    ///
    /// # Errors
    ///
    /// [`IdSpaceError::IdOutOfRange`] for `u64::MAX`. Nothing can be allocated
    /// above it, and letting it through would wrap the arithmetic that follows.
    /// Nothing is recorded then.
    pub fn created(&mut self, nodes: &RoaringTreemap) -> (r: Result<(), IdSpaceError>)
        requires
            old(self)@.wf(),
        ensures
            final(self)@.wf(),
            contents(*nodes).contains(u64::MAX) ==> r == Err::<(), IdSpaceError>(
                IdSpaceError::IdOutOfRange(u64::MAX),
            ) && final(self)@ == old(self)@,
            !contents(*nodes).contains(u64::MAX) ==> r == Ok::<(), IdSpaceError>(())
                && final(self)@ == old(self)@.recording(contents(*nodes)),
            final(self)@.entry_bound == old(self)@.entry_bound,
            r is Ok ==> forall|id: u64| #[trigger]
                final(self)@.ingested.contains(id) <==> old(self)@.ingested.contains(id) || (
                contents(*nodes).contains(id) && old(self)@.entry_bound <= id),
            r is Err ==> forall|id: u64| #[trigger]
                final(self)@.ingested.contains(id) <==> old(self)@.ingested.contains(id),
    {
        if nodes.contains(u64::MAX) {
            return Err(IdSpaceError::IdOutOfRange(u64::MAX));
        }
        // Ids at or above `entry_bound` only: a recycled id was already counted
        // in the boundary this started from.
        //
        // The whole-set union is the ordinary case, since a batch's creates are
        // either all new or all recycled, and it is a merge rather than a walk.
        // The walk is only reached by a batch that mixes the two.
        match nodes.min() {
            None => {},
            Some(min) => if min >= self.entry_bound {
                unite(&mut self.ingested, nodes);
                assert(from_bound(contents(*nodes), self.entry_bound) =~= contents(*nodes));
            } else {
                self.record_new(nodes);
            },
        }
        assert(self@ =~= old(self)@.recording(contents(*nodes)));
        Ok(())
    }

    /// Records those of `nodes` that are at or above the entry boundary, one by
    /// one.
    fn record_new(&mut self, nodes: &RoaringTreemap)
        ensures
            final(self)@ == old(self)@.recording(contents(*nodes)),
    {
        let mut walk = nodes.iter();
        let ghost mut seen = Set::<u64>::empty();
        loop
            invariant
                self.entry_bound == old(self).entry_bound,
                self@ == old(self)@.recording(seen),
                seen.union(upcoming(walk).to_set()) == contents(*nodes),
            ensures
                seen == contents(*nodes),
            decreases upcoming(walk).len(),
        {
            let ghost before = upcoming(walk);
            match next_id(&mut walk) {
                None => {
                    assert(seen =~= contents(*nodes));
                    break;
                },
                Some(id) => {
                    if id >= self.entry_bound {
                        self.ingested.insert(id);
                    }
                    proof {
                        assert forall|other: u64| before.to_set().contains(other) implies other
                            == id || upcoming(walk).to_set().contains(other) by {
                            let i = choose|i: int| 0 <= i < before.len() && before[i] == other;
                            if i > 0 {
                                assert(upcoming(walk)[i - 1] == other);
                            }
                        }
                        assert forall|other: u64|
                            upcoming(walk).to_set().contains(other) implies before.to_set().contains(
                            other,
                        ) by {
                            let i = choose|i: int|
                                0 <= i < upcoming(walk).len() && upcoming(walk)[i] == other;
                            assert(before[i + 1] == other);
                        }
                        assert(before[0] == id);
                        seen = seen.insert(id);
                        assert(seen.union(upcoming(walk).to_set()) =~= contents(*nodes));
                        assert(self@ =~= old(self)@.recording(seen));
                    }
                },
            }
        }
    }

    /// Check that ids the batch is about to delete were allocated here.
    ///
    /// The other half of "is this node live", whether it is already in the
    /// recycle bin, is the graph's to refuse, and it needs no boundary to
    /// answer.
    ///
    /// # Errors
    ///
    /// [`IdSpaceError::NeverIngested`] for the highest id at or above the entry
    /// boundary that this batch did not create. Above the boundary it was never
    /// allocated before the batch either, so nothing has ever held it.
    pub fn deletable(&self, nodes: &RoaringTreemap) -> (r: Result<(), IdSpaceError>)
        ensures
            self@.answers_delete(contents(*nodes), r),
            r is Err <==> exists|id: u64| #[trigger]
                contents(*nodes).contains(id) && self@.entry_bound <= id
                    && !self@.ingested.contains(id),
            r matches Err(e) ==> {
                &&& e matches IdSpaceError::NeverIngested(named)
                &&& contents(*nodes).contains(named)
                &&& self@.entry_bound <= named
                &&& !self@.ingested.contains(named)
                &&& forall|id: u64| #[trigger]
                    contents(*nodes).contains(id) && named < id ==> self@.ingested.contains(id)
            },
    {
        let unknown = difference(nodes, &self.ingested);
        assert(forall|id: u64| #[trigger]
            contents(*nodes).contains(id) ==> contents(unknown).contains(id)
                || self@.ingested.contains(id));
        let ghost never_held = self@.never_held(contents(*nodes));
        assert(forall|id: u64| #[trigger]
            never_held.contains(id) <==> contents(unknown).contains(id) && self.entry_bound <= id);
        match unknown.max() {
            Some(id) => if id >= self.entry_bound {
                assert(is_highest(never_held, id));
                Err(IdSpaceError::NeverIngested(id))
            } else {
                assert(never_held =~= Set::<u64>::empty());
                Ok(())
            },
            None => {
                assert(never_held =~= Set::<u64>::empty());
                Ok(())
            },
        }
    }

    /// Check that the batch left a possible id space behind.
    ///
    /// # Errors
    ///
    /// [`IdSpaceError::Hole`] if the ingested ids do not fill the range from the
    /// entry boundary upward, and [`IdSpaceError::Miscounted`] if the graph's own
    /// boundary disagrees with where those ids put it. See the crate's
    /// documentation for why both are needed. A hole is reported whatever the
    /// graph has counted.
    pub fn verify(&self, g: &Graph) -> (r: Result<(), IdSpaceError>)
        requires
            self@.wf(),
            self@.dense() ==> g.boundary() <= u64::MAX,
        ensures
            self@.judges(g.boundary(), r),
            r is Ok <==> self@.dense() && g.boundary() == self@.expected_boundary(),
            r is Ok ==> {
                &&& g.node_count + g.deleted_nodes_count == self@.entry_bound
                    + self@.ingested.len()
                &&& forall|id: u64| #[trigger]
                    self@.ingested.contains(id) <==> self@.entry_bound <= id
                        < self@.entry_bound + self@.ingested.len()
            },
            r matches Err(e) ==> match e {
                IdSpaceError::Hole { entry_bound, highest, ingested } => {
                    &&& entry_bound == self@.entry_bound
                    &&& self@.ingested.contains(highest)
                    &&& forall|id: u64| #[trigger] self@.ingested.contains(id) ==> id <= highest
                    &&& ingested == self@.ingested.len()
                    &&& ingested - 1 < highest - entry_bound
                },
                IdSpaceError::Miscounted { graph_bound, expected } => {
                    &&& graph_bound as int == g.node_count + g.deleted_nodes_count
                    &&& expected as int == self@.entry_bound + self@.ingested.len()
                    &&& graph_bound != expected
                    &&& forall|id: u64| #[trigger]
                        self@.ingested.contains(id) <==> self@.entry_bound <= id < expected
                },
                _ => false,
            },
    {
        proof {
            lemma_boundary_fits(self@);
        }
        let ingested: u64 = self.ingested.len();
        // `len - 1 == highest - entry_bound` rather than `highest - entry_bound
        // + 1 == len`: every id in the set is at or above the boundary and the
        // set is non-empty here, so neither subtraction can wrap.
        match self.ingested.max() {
            Some(highest) => {
                proof {
                    lemma_dense_by_count(self@, highest);
                }
                if ingested - 1 != highest - self.entry_bound {
                    return Err(
                        IdSpaceError::Hole { entry_bound: self.entry_bound, highest, ingested },
                    );
                }
            },
            None => {
                assert(self@.dense()) by {
                    let lo = self.entry_bound as int;
                    assert(self@.ingested =~= interval(lo, lo));
                }
            },
        }

        let graph_bound: u64 = g.node_count() + g.deleted_nodes_count();
        let expected: u64 = match self.entry_bound.checked_add(ingested) {
            Some(expected) => expected,
            None => return Err(IdSpaceError::IdOutOfRange(u64::MAX)),
        };
        if graph_bound != expected {
            return Err(IdSpaceError::Miscounted { graph_bound, expected });
        }
        Ok(())
    }
}

} // verus!
