# rgb_contract_vm

The part of a smart contract machine that reads and checks state, written in
Rust and verified with Verus.

A contract is issued by a genesis and updated by state transitions. A script
validates such an operation with the help of contract operations: they count
state, load it into registers, and compare sums of amounts. Transitions that
share a witness transaction form a bundle, which is identified by a tagged hash
of its input map.

| Module | Contents |
| --- | --- |
| `contract_op` | the contract operations, the outcome of each of them, and their execution |
| `laws` | what holds of every operation: failures, frames, counts and loads, sums |
| `registers` | the register file of an `aluvm` core, seen as maps |
| `state`, `operation` | owned state, global state and metadata; genesis and transitions |
| `contract_state` | state and history of a contract, and the walk over the history |
| `env` | an environment that runs operations one at a time |
| `bundle` | transition bundles, their identifiers, and the laws of these |
| `confinement` | collections whose size lies within bounds |
| `types` | identifiers, type numbers and seals |

Registers, size checks, 24-bit numbers and commitments come from `aluvm`,
`amplify`, `bp-core` and `commit_verify`. What is believed of them stands in the
contracts of the functions that call them, each with a comment that names the
outside function.

`tests/` holds tests; `app/` gives bundles the traits of the outside crates.
