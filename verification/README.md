# staking

A CosmWasm staking contract whose rules are verified with Verus.

- `src/` — the verified library: the stored records (`state`), the messages
  and answers (`msg`), the errors (`error`), decimal rendering of amounts and
  response attributes (`text`), ratio arithmetic through `cosmwasm_std`
  (`math`), the operations with their contracts (`contract`), and the
  properties that hold across operations (`laws`).
- `app/` — the contract around it: entry points, storage through
  `cw-storage-plus`, JSON messages, and the floating-point emission rate.
- `tests/` — tests of the library, driving it as the contract's host does.
