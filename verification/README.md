# fiber_dev_rpc

Request handling for the development RPC of a Fiber node, and for the RPC of its watchtower.

- `src/` is the library. Every remote call is a function from its parameters to the command for the
  node, and a function from the node's reply to the answer. Signing a funding transaction takes
  several steps: `signing::FundingTxSigner` names the output to look up next and goes on with the
  answer. Contracts and laws are proved with Verus. Calls into `hex`, `secp256k1`, `ckb-types` and
  `ckb-sdk` stand behind small functions whose contracts are trusted.
- `tests/` runs the library on concrete values, with the real crates behind it.
- `app/` serves the calls over JSON-RPC: it converts JSON values, talks to the actors of the node
  and looks up transactions on the chain.

| module | content |
| --- | --- |
| `dev` | the remote calls for development |
| `watchtower` | the remote call of the watchtower |
| `signing` | grouping the inputs of a transaction by lock script, and signing the groups |
| `transaction`, `witness`, `keys`, `chain` | values of the CKB chain |
| `message` | descriptions of captured and held messages |
| `commitment` | the commitment transactions that a node knows |
| `fee` | fees of forwarded payments and of the transactions that end a channel |
| `hexadecimal`, `text` | notation of bytes and numbers |
| `types`, `network`, `error` | parameters and results, commands and replies, failures |
