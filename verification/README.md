# loki_fuzzer

The mutation rules of the Loki consensus fuzzer, verified with Verus.

- `src/model.rs`: the plain fields of the consensus messages the fuzzer rewrites.
- `src/counters.rs`: how one random draw rewrites one counter.
- `src/mutate.rs`: the mutation of each message, for given draws and for fresh ones.
- `src/generate.rs`: the drawn parts of made-up messages.
- `src/schedule.rs`: the decisions of one turn of the fuzzing loop.
- `src/laws.rs`: properties of every mutation and every turn.
- `src/random.rs`: the calls into `rand`.
- `app/lib.rs`: the loop inside a consensus node, and the conversions to and
  from the node's message types.
