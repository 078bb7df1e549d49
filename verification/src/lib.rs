//! Validating a graph's node id space across a batch of ingested ids.
//!
//! ## The invariant, and why the graph cannot check it alone
//!
//! A [`Graph`] tracks node liveness with two counters and no live set, so the
//! only boundary it can offer is their sum. That is the boundary *if the id
//! space is dense*. An assertion written in terms of the counters checks one
//! derivation of the state against another derivation of the same state, and
//! passes on a graph that is already wrong.
//!
//! Density holds between batches, not within one. A batch ingests its records
//! grouped by shape rather than ordered by id, so a create of 500..600 may
//! precede one of 0..500. Between them the graph holds 100 live nodes whose
//! highest id is 599 and reports its boundary as 100.
//!
//! ## What a [`NodeIdSpace`] holds
//!
//! The boundary as it stood before the batch, and every id at or above it that
//! the batch has ingested. That is enough to state the invariant directly:
//!
//! ```text
//! ingested == [ entry_bound, entry_bound + ingested.len() )
//! ```
//!
//! Two independent things can break it, so [`NodeIdSpace::verify`] checks both.
//!
//! **The shape of what arrived.** Ids ingested at or above the boundary must
//! fill the range from it upward with no hole. An allocator hands out the lowest
//! free id, so it cannot reach an id without having handed out everything below:
//! a batch that leaves a hole did not come from one. This is the check that
//! catches a replica which has missed a buffer. Told to create 500..600 when its
//! own boundary is 0, it would otherwise accept an id space its master does not
//! have and collide on its next allocation.
//!
//! **That the graph counted it.** The live count is an independent counter, and
//! the same id ingested twice moves it twice while the set absorbs the
//! duplicate. Comparing the graph's own boundary against
//! `entry_bound + ingested.len()` is the only place anything checks that counter
//! against a value not derived from it.
//!
//! Neither subsumes the other: the first misses a duplicate inside an otherwise
//! complete range, the second misses a hole, because the ids in a truncated
//! batch really were counted.
//!
//! ## Layout
//!
//! [`space`] holds the id space and its model, [`laws`] what is proved of it as
//! a whole, [`error`] the errors and their texts, [`graph`] the counters it
//! reads, [`ids`] the vocabulary of id sets, and [`treemap`] what is believed of
//! the compressed set underneath.
pub mod error;
pub mod graph;
pub mod ids;
pub mod laws;
pub mod space;
pub mod treemap;

pub use error::IdSpaceError;
pub use graph::Graph;
pub use space::NodeIdSpace;
