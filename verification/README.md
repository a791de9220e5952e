# transcorp_digital_twin

A mock of a card-issuance and transaction-management service (KYC and
one-time passwords, customer and business registration, cards and their
lifecycle, channel preferences, balances and transactions), written as a
Verus library whose request rules are proved against their specifications,
with a thin HTTP server around it.

- `src/` — the verified library.
  - `state.rs`: the keyed tables that hold the service's data, and the
    abstract model (`AppModel`) over which every contract is stated.
  - `handlers/`: one function per request. Each has a specification
    function `<name>_spec` giving the new state and the answer; where a
    request draws random numbers or reads the clock, a `<name>_with`
    function takes the drawn values as arguments and meets the
    specification exactly, and `<name>` draws them and meets it for some
    valid draw.
  - `services/`: balance credits and debits, and identifier generation.
  - `middleware/auth.rs`: admission by token and tenant.
  - `config.rs`, `models/`, `text.rs`: configuration, records, text helpers.
  - `laws.rs`: properties spanning requests (read-after-write, money
    conservation, non-negative balances, card lifecycle, single-use OTPs).
- `app/` — the actix-web server: JSON shapes with serde, routes, the auth
  middleware, state snapshots on disk, partner webhooks, and the
  floating-point amount conversions.
- `tests/` — tests of the library on concrete values.
