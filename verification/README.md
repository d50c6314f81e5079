# nosedive

The decision logic of the Nosedive Discord bot, verified with Verus.

- `src/bytecoin.rs`: the bytecoin market (prices, purchases, sales, the
  automatic purchase size); `src/market_laws.rs`: the laws relating them.
- `src/coinflip.rs`: wagers and their settlement on a fair coin.
- `src/gift.rs`: elo gifts between users.
- `src/challenge.rs`: who may challenge whom, and the tally and standing of
  a challenge poll.
- `src/commands.rs`: which handler a slash command goes to.
- `app/`: the bot itself (Discord, SQLite, Glicko-2 ratings). Its handlers
  call the library for their decisions. The routed commands are `getelo`,
  `leaderboard`, `challenge`, `setchannel` and `give`; the `bytecoin`,
  `coinflip` and `settimeout` handlers are kept but not routed.
