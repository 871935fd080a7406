# game_cs

The core systems of a Counter-Strike style tactical shooter, written in
Verus: the functions of the library carry contracts that the verifier
proves. The few calls into outside code (the clock, the random draws, the id
generator and one text format) sit behind small trusted wrappers in
`services.rs` and `util.rs`, whose contracts state what those calls
promise.

## Layout

- `src/` — the verified library
  - `weapons/` — weapon stats, the catalog, ammunition, firing and hit damage
  - `player/` — player state, armor, money, inventory, movement modes, actions
  - `economy/` — end-of-round rewards with the loss bonus, and the buy menu
  - `game/` — rounds (phases, grenades, elimination, the bomb clock, MVPs),
    matches (score, halftime, money, bomb carrier), dropped weapons, errors,
    the pacing of a played match (screens, bot moves, result display), and
    the decisions of the bots and of the player's shots from random draws
  - `map/` — map definitions, bomb sites, spawns, the bomb state machine
  - `network/` — rooms and the matchmaking queue
  - `stats/` — round and match statistics, the leaderboard
  - `world.rs` — the grid of the first-person map explorer
  - `services.rs` — the clock, the random draws and the id generator
- `tests/` — tests of the library
- `app/` — the programs around it: a demonstration, the server summary, a
  playable match against bots, an interface showcase and the 3D explorer

## Units

Quantities are kept in fixed point so that every rule can be stated
exactly: times in milliseconds, damage and health changes in hundredths of
a hit point, positions in hundredths of a world unit, angles in hundredths
of a degree, armor penetration in thousandths, kill/death ratios in
thousandths and rates in hundredths of a percent.
