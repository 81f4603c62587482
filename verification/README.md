# sts_sim

A simulator of the card game Slay the Spire, written in Verus: the executable code carries
`requires`/`ensures` contracts over mathematical models (`Seq`, `Multiset`, spec functions),
and Verus proves that the code meets them and never panics.

## Layout

- `src/rng/`: the game's random number generators (the xorshift generator, `java.util.Random`
  for shuffles, single-precision rounding for weighted choices) and what is drawn from them:
  card rewards, events, Neow's blessings, relics.
- `src/data.rs`, `src/types.rs`: the game's cards, relics, potions, enemies, encounters and
  acts, with their pools.
- `src/player/`: the player's state, the channels to the client, and the player in and out of
  combat.
- `src/sim/`: enemies and their AI, and the player of the simulation.
- `src/components/`, `src/systems/`: the combat, map, potion, deck, relic and health systems,
  and the enemy party.
- `tests/`: executable tests of the library.
- `app/`: how prompts, choices and maps under construction read to a person.

Properties that relate several operations are stated and proved as `law_*` proof functions
beside the code they are about.

## Not covered

Some parts of the game are not part of this library, because the game data or the pieces they
work on are not part of it:

- playing a card in an encounter and the game loop over floors and rooms: they need the
  effect chains of cards and enemy moves, the map and Neow screens, and the encounter
  generator;
- creating cards in combat, exhausting cards, the end-of-turn discard (ethereal, retained and
  lingering cards), and upgrading a card of the deck: they need card details (pools, upgrades,
  ethereal, retain, on-exhaust and on-linger effects) that the card data here does not hold;
- the reactions of the player's conditions to damage, to exhausting a card and to playing a
  card, which the player's conditions here do not define.

Resolving the effect queue runs on a budget of 2^64 − 1 effects per queue; past it, resolution
stops.
