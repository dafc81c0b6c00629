# rust_ml

Typed building blocks for small machine-learning lessons, with the integer
and shape logic verified by Verus.

- `src/` is the verified library:
  - `systems`: element counts, bytes, FLOPs, bandwidth and transfer time,
    activation / matrix-vector / attention estimates, and the median of
    repeated timings.
  - `parallelism`: world sizes, rank identities, even splits of batches,
    widths and layers, sharding a line of values across ranks, pipeline
    schedules, collective communication bytes, and the public-report
    boundary.
  - `scaling`: experiment configurations, the `12 * width^2 * layers`
    parameter estimate, the `6 * parameters * tokens` training budget, compute
    tradeoffs and the loss-first recommendation.
  - `transformer`: widths, heads and the encoder parameter estimate, matrix
    shapes and indices, token counts and sequence width checks, the width
    checks that decide whether attention, feed-forward and encoder layers fit
    together, and expert load accounting.
  - `neuron`: non-empty feature/weight vectors and datasets, next-token
    targets, and adjacent-pair bigram datasets.
- `tests/` exercises the library on concrete values.
- `app/` holds the floating-point arithmetic (dense vectors and matrices,
  attention, layer norm, training loops, power-law fits) and error types with
  `Display`, built on the library's checks.

Every public function of `src/` states its result in its `ensures` clause;
laws that relate several calls are public proof functions, such as
`systems::lemma_median_ignores_order`,
`parallelism::lemma_even_partition_reassembles`,
`scaling::lemma_recommendation_swaps` and
`transformer::experts::lemma_loads_count_every_route`.
