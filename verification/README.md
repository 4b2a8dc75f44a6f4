# diffurch

Building blocks of a solver for ordinary and delay differential equations with event
detection, verified with Verus.

- `src/` is the verified library: exact rational Butcher tables of explicit Runge-Kutta methods
  with proofs of their order conditions (`rational`, `order_conditions`, `tables`,
  `generic_tables`, `rk`); the index-stable deque and the linear partition-point search
  (`stable_index_deque`, `partition_point`); event detection, location and filtering
  (`detect`, `locate`, `filter`, `loc`, `earliest`, `periodic`); the propagation of
  discontinuities through delays (`propagation`); the history of the solution that delayed
  arguments read (`history`); the solver configuration and the decisions of
  its integration loop (`solver`, `stepsize`); and small type-level lists (`hlist`, `tower`,
  `symbol`).
- `app/` holds the floating-point side: tables rounded to `f64`, dense output, adaptive step
  size control, location of events within a step, and an integration loop that asks the
  verified loop decisions what to do next, reads delayed arguments from the verified history,
  and runs a configured solver with its callbacks and events.
