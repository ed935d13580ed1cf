# fungible_token

A NEAR fungible token whose tokens are minted from the NEAR attached to a
mint call, less any storage deposit the caller still owes, and burned for a
NEAR refund of the amount burned.

- `src/` is the verified library: the decisions the contract makes on each
  call (`init`, `mint`, `burn`), the storage-balance values they read
  (`storage`), the storage delta logged around transfers (`hook`), the NEAR
  amount arithmetic they call into near-sdk for (`token`), and proofs of properties that span several calls (`laws`).
- `app/` is the contract itself: contract state and the token and storage
  standards of near-sdk-contract-tools, the blockchain environment, and the
  transfer-logging hook. It reads the environment and the ledger, asks the
  library what to do, and does it.
