# stellarfund

The verified core of a crowdfunding platform on Stellar/Soroban: campaigns
that collect token contributions towards a goal before a deadline, pay the
creator once the goal is met, refund contributors after a missed deadline,
and a factory that keeps a registry of the campaigns it deployed.

- `src/` — the library, verified with Verus.
  - `campaign.rs`: a campaign's state, its model (`init_step`,
    `contribute_step`, `withdraw_step`, `refund_step`) and the executable
    requests, each proved to follow the model. Accepted requests return the
    actions the host must carry out (token transfers, events, the factory
    notification).
  - `factory.rs`: the registry of campaigns, and the deployment salt derived
    from a campaign's title with Soroban's keccak-256.
  - `ledger.rs`: the contribution ledger as a list of writes.
  - `error.rs`: the errors and their ledger codes.
  - `laws.rs`: properties across requests and between a campaign and the
    registry.
- `app/` — the Soroban contracts: storage, authorization, and the transfers,
  events and inter-contract calls the library asks for.
- `tests/` — tests of the library.
