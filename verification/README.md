# casper

A simplified Casper FFG finality gadget, verified with Verus. Validators
deposit, vote on checkpoint links, earn a reward for votes on the expected
source epoch, log out and withdraw. Votes counted for a source epoch that reach
two thirds of the deposits of both the current and the previous dynasty justify
the target epoch, and finalize the source where the two epochs are consecutive.
Votes are counted per link (target and source epoch); a validator votes once
per target epoch, so its deposit enters a link's count once.
Epochs without deposits in both dynasties are finalized at once.

Layout:

- `src/types.rs`: validators, checkpoints, the runtime constants, origins,
  events, errors and the record of requests made to the runtime.
- `src/model.rs`: the storage as mathematical values (`CasperState`) and what
  each call does to it.
- `src/runtime.rs`: the runtime interface (`Trait`) and `Runtime`, which
  makes each request to the runtime and records it with its answer.
- `src/pallet.rs`: the module (`Module`), whose view is a `CasperState`.
- `src/laws.rs`: properties across calls: refused calls change nothing, one
  vote per validator and target epoch, a vote counts for its own link only,
  finalized checkpoints are justified and stay finalized (except that starting
  epoch 0 again clears its checkpoint), the effect of a supermajority.
- `tests/`: scenarios run against a mock runtime.
- `app/`: SCALE encodings of the stored records.

Arithmetic that would overflow is excluded by the calls' preconditions.
