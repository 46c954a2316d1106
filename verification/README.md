# A verified analyser of unsafe-API usage

This library looks at the lowered control-flow graph of each function of a Rust
crate and reports calls of unsafe APIs whose safety conditions are not
visibly met: use-after-free and double-free of raw-pointer ownership,
forgotten lock guards, epoch-guard misuse, unchecked constructors called on
values that were never checked, and many more.

The library in `src/` is written in Verus, and every function in it is
verified against its contract:

- `mir.rs` models the control-flow graph (locals, places, operands,
  statements, terminators, bodies) as plain values.
- `collections.rs` holds small verified vector-backed sets and maps and the
  lattice lemmas the analysis state is built from.
- `analysis/` is the abstract interpreter: the per-object heap and
  initialisation lattices, protocol typestates, the block state and its join
  (a proved semilattice), the statement and terminator transfer functions,
  branch refinement, interprocedural summaries, the worklist fixpoint
  (proved to stop, with a bound on how far each state can still change under
  joins, and to give a state to exactly the reachable blocks), and the
  precondition summaries.
- `checkers/` holds one module per rule; each checker's result is stated
  exactly over the flow results.
- `text.rs` has the string helpers the checkers match callee paths with.

`app/` is the driver around the library: it lowers the compiler's MIR into
the model of `mir.rs`, runs the analysis and the checkers, and prints the
findings. It links against the compiler's private crates and is not part of
the verified code.

`tests/` exercises the library on hand-built bodies.
