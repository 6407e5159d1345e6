# rake

The game logic of Rake, a Discord bot in which players rake leaves, collect
items and trade them, written in Verus and verified.

* `src/` is the verified library: item tables and the parsing of item names
  (`items`, `inventory`), passives, raking (cooldowns, the lucky double, bonus
  finds, and what a rake stores), the daily shop, the answer picked by an FNV-1a hash, the reading of
  player and owner commands, every reply the bot sends (as plain `Embed` and
  `Reply` values) and the SQL text it sends to its database. Randomness comes
  from the `rand` crate through a few trusted wrappers in `chance`.
* `app/` is the bot itself: the Discord client (serenity), the SQLite pool
  (sqlx), the floating-point Leaves roll, and the conversion of the library's
  replies into Discord messages.
* `tests/` run the library on concrete values.
