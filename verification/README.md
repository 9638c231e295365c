# ten_ten_one

The wallet logic of a Lightning/Bitcoin CFD trading client and of its maker,
verified with Verus.

- `src/history.rs`: the on-chain history shown to the user (maker fundings
  hidden, channel openings lowered by the maker's share).
- `src/wallet.rs`: balances, the process-wide wallet slot, spend plans,
  the Lightning seed, error messages.
- `src/invoice.rs`: Lightning invoice parsing and the amounts its parser
  cannot take.
- `src/channel.rs`: channel amounts and the wait for the maker's funding.
- `src/payments.rs`: the Lightning payment history.
- `src/api.rs`: the entries and results handed to the user interface.
- `src/routes.rs`, `src/decimal.rs`: the maker's offer, its requests' error
  answers and request parsing.
- `src/txid.rs`: transaction ids and their hex form.
- `app/`: conversions from the chain backend and the Lightning node, the
  waiting loop, HTTP problems and serialised copies of library types.
