# Augur

Real-time game coaching: a coach, never a bot. This crate holds the
platform's contracts and rules, written in Verus and proved:

- `ids`, `evidence`, `observation`, `recommendation`: identifiers, confidence
  (an `f32` in `0.0..=1.0`, held by its bit pattern), the observation envelope
  and the recommendation contract.
- `validate`: the rules the wire format cannot express (schema version,
  non-empty fields, priorities that rank the actions `1..=n`).
- `game_api`, `battlegrounds`, `registry`: the game-adapter seam, the one
  compiled-in game, and the registry that files adapters by game id.
  The registry keeps its adapters in a vector ordered by game id, viewed as a
  map from id to adapter. A `BTreeMap` keyed by `GameId` is not used: vstd
  specifies `BTreeMap` only for keys whose ordering it has a specification
  of, and a string-keyed id has none, so nothing about such a map could be
  proved.
- `policy`: the two release gates (support status and policy review).
- `capture`, `match_state`, `strategy`, `advice`, `voice`: the vocabulary of
  the remaining subsystems.
- `text`: white space, decimal rendering and text order.

`app/` is the ordinary Rust around it: the `serde` wire types (with JSON
Schemas for the two contracts), loaders that parse and then validate, and a
program that writes the schemas to disk.
