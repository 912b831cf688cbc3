# cw20_staking

A staking derivative for CosmWasm chains, verified with Verus.

Whoever sends native coins with `Bond` has them delegated to the contract's validator and gets
tokens for them. Tokens are priced by what is bonded: all the tokens outstanding are worth all the
coins bonded, so a reinvestment of rewards makes each token worth more. `Unbond` gives tokens up
for a claim on the coins that they are worth, less an exit tax that goes to the owner in tokens;
`Claim` collects the coins once the chain has released them. Between the two, the tokens are
ordinary cw20 tokens.

## Layout

- `src/contract.rs`: the messages and the queries.
- `src/guard.rs`: `try_execute` and `try_query`, which run a message or a query only where no
  amount, time or storage key leaves the machine's limits. The functions of `contract.rs` ask for
  that as a precondition.
- `src/rules.rs`: what each message does, as a function of the storage and of what the chain
  answers.
- `src/laws.rs`, `src/conservation.rs`, `src/histories.rs`: what holds of the contract as a whole,
  and over several messages. Among others: no message lowers what a token is worth; every token is
  backed by a coin; the total supply is the sum of all balances; what is
  recorded as owed is the sum of all open claims; what is recorded as bonded changes by what the
  chain is told to delegate and undelegate.
- `src/state.rs`, `src/store.rs`: the storage, modelled as a map from keys to cells.
- `src/token.rs`, `src/claims.rs`, `src/amount.rs`, `src/chain.rs`: the calls into `cw20-base`,
  `cw-controllers` and `cosmwasm-std`, each with the contract that the proofs rest on.
- `app/`: the entry points, with the encodings of the messages.
- `tests/`: scenarios on a simulated chain.

What the chain answers to a question is not assumed to be anything in particular. Where a message
asks the chain, the function that asks says to which answer it reacted, and a function beside it
(`bond_with`, `release_with`, `claim_with`, ...) says what it does for every answer.
