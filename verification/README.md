# mina_bridge_core

The logic of a Mina–Ethereum bridge, verified with Verus: interpreting the
Mina daemon's and archive node's GraphQL answers, assembling state and
account proofs, preparing submissions to Aligned, the gas and receipt
policy of the Ethereum contracts, the classification of every provider's
failures by recovery action, and configuration from the environment.

Layout:

- `src/` — the verified library. Network I/O, `.env` loading, binprot and
  field-element decoding stay outside; their outcomes enter as plain values.
  - `mina_daemon`, `mina`, `mina_archive`: GraphQL replies, proof windows,
    account membership, zkApp and Burn events.
  - `aligned`, `eth`, `nori`: submission data, polling schedule, fees,
    contract call arguments, receipts; the `updateChain` transaction and the
    token unlock as step machines.
  - `submission`: the order of a direct submission and of a polling
    submission, as step machines the caller drives.
  - `balance`: the bridge's initial balance in wei, through rust_decimal.
  - `rpcs`: error types and their classification, Aligned networks.
  - `config`: settings from environment variables.
  - `evm`, `payload`, `text`, `results`: calls into alloy and base64, and
    string and collection helpers.
- `tests/` — tests of the library on concrete values.
- `app/` — a command-line program doing the I/O around the library, and
  drivers that perform the step machines' actions.
