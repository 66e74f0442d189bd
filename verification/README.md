# pulsartrack

The rules of the PulsarTrack advertising contracts (ad registry, campaign
orchestrator, dispute resolution, governance DAO and token, liquidity pool,
milestone tracker, performance oracle, publisher network, token bridge),
written in Verus and proved against their contracts.

- `src/` — the verified library. Each contract is a value holding its storage
  as plain data, with a mathematical view (`@`). Every entry point states in
  its `ensures` exactly when it is refused (and with which `Error`), what it
  returns, and the state it leaves. Laws that relate several calls stand as
  public proof functions named `law_*`.
- `tests/` — executable tests of the library.
- `app/` — hosts that run the rules on a Soroban ledger: caller
  authorization, the ledger clock, calls to other contracts, token transfers
  and events.

Ledger addresses are numbered (`types::Address`); token movements that an
accepted call implies are returned as `types::Transfer` values for the host to
carry out.
