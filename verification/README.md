# changweibot

A Telegram bot that shows Battlefield 1 player statistics (overall stats,
weapons, vehicles) from the gametools statistics service, and remembers which
game account a chat user has bound.

- `src/` is the verified library (Verus):
  - `ranking.rs`: stable ordering of stat records by kills, selection by type,
    keeping the first records; the laws of the ranking (unique, a
    permutation, idempotent).
  - `json_format.rs`: the stat records and their methods.
  - `stats_api.rs`: the service's endpoint addresses (built with the `url`
    crate) and the ranking applied to its answers.
  - `backend.rs`: the backend as a state machine from request and outcome to
    work and answer, with its laws.
  - `utilities.rs`: the vehicle-type keyboard layout and the game-account lookup.
  - `commands.rs`: the answer to a bot command as a state machine.
- `app/` runs it: the Telegram loop (teloxide), the HTTP requests (reqwest),
  the SQLite user store (rusqlite), the JSON parsing (serde), and the loops
  that drive the library's state machines.
- `tests/` holds the tests of the library.

`Cargo.toml` pins `takecell`, which no code here names: `teloxide` depends
on it, and its newest release needs a newer rustc than the toolchain that
builds this crate, so without the pin the dependencies do not resolve.
