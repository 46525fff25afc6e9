# platformer

The rules of a small side-scrolling platformer game, as a Verus library:
what is decided in the game, stated in `requires` / `ensures` contracts and proved.

- `src/` — the verified library:
  - `map` — loading a TMX tile map from its bytes (through `xml_items`, which runs xml-rs), its
    layers, and where each tile of a layer goes; `text` — the number parsing the loader relies on.
  - `collision` — collider shapes and their flips, and the collision `Space`: which colliders
    exist, which are switched on, which static collider sits in which cell.
  - `input`, `audio`, `event_dispatch`, `gamestate` — button states, music control, the message
    queue between entities, and which entities enter or leave the viewport.
  - `entities` — the entity classes and the decisions each entity makes (hit points, power ups,
    spawn points, the exit door, animation cycles, the UI).
- `app/` — what the library cannot hold: reading files, playing sound, and the floating point
  geometry, physics and collision tests of the game world.
- `tests/` — tests of the library on concrete values.
