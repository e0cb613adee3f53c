# nft_collection

A verified model of an NFT collection minter contract and of the reward
handler that collects the minter's royalties and mint payments.

The contract storage is held as plain values and each endpoint is a function
from that storage and the transaction's inputs (caller, payment, block
timestamp or epoch) to the next storage and to what the host is asked to do
(issue a token, mint NFTs, pay a balance out, call the minter). A refused call
leaves the storage unchanged.

- `src/store.rs`: sets and maps keyed by byte strings.
- `src/token.rs`: token identifiers, payments, exact price totals.
- `src/collection.rs`: collection settings, constants, errors, host requests.
- `src/whitelist.rs`: the ordered mint whitelist of a collection.
- `src/minter.rs`: the minter's storage, its invariant and its endpoints.
- `src/reward.rs`: the reward handler's once-per-epoch claim.
- `src/laws.rs`: properties that relate several calls.
- `app/lib.rs`: conversions between the VM's managed values and the library.
