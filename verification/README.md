# Steam Player Roles

A [RoleLogic](https://rolelogic.faizo.net) plugin that links Discord accounts with Steam profiles and assigns roles by
Steam data: games owned, playtime, achievements, level, account age, bans, groups and country.

## Layout

- `src/` — the library. It decides: what a condition means, which changes make roles match, when a call may spend quota,
  what a refresh or a sync has to do next, and what each route answers. It is written in Verus, and its contracts are
  proved. Functions and proofs named `law_…` state what holds of the library as a whole.
- `app/` — the server around it: environment, database, HTTP, clocks to wait by. It carries out what the library asks for
  and hands back what came of it.
- `tests/` — the library on concrete values.

Long conversations with the outside world (a sync, a refresh, the way back from Steam, a save) are state machines in the
library: a function takes the state and the reply, and gives the next state and what to ask for.

## What is taken on trust

The library calls a few functions of other crates behind small wrappers, each with a comment that says what is claimed of
it: the clock and RFC 3339 texts of `chrono`, SHA-256 of `sha2`, hexadecimal texts of `hex`, URL and cookie encoding of
`urlencoding` and `axum-extra`, random bytes of `rand`, and three functions of the standard library on strings.

## Running

The server reads its settings from the environment: `DATABASE_URL`, `SESSION_SECRET`, `BASE_URL`, `AUTH_GATEWAY_URL`,
`INTERNAL_API_KEY` and `STEAM_API_KEY` must be set. `app/peers.rs` is where the services that vouch for sessions and
tokens, and RoleLogic itself, are connected; without them nobody is signed in and no role is assigned.
