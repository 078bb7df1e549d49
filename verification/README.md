# id_space

A verified library that validates a graph's node id space across a batch of
ingested ids.

Between batches a graph's ids are dense: everything below a boundary was handed
out, and nothing above it. `NodeIdSpace` notes that boundary before a batch,
records what the batch creates, and checks at the end that the new ids fill the
range above the boundary and that the graph counted each of them once.

- `src/` is the library, proved with Verus. `src/space.rs` holds the id space and
  its contracts, `src/laws.rs` what holds over whole batches, and
  `src/treemap.rs` what is believed of the `roaring` crate.
- `tests/` runs it.
- `app/` formats the errors through `std::fmt::Display`.
