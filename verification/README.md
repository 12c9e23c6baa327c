# eggo

The rules of Eggo, a small top-down action game, as a library verified with Verus,
and the game program that runs them in the Bevy engine.

- `src/` — the verified library: creature behaviour states and their transitions,
  the inventory and item use, hit resolution, loot, props, death animation stages,
  the goblin wave, goblin animation choice, input bindings and mesh index generation.
  Each public function states its result in its contract; the `lemma_*` proof
  functions state properties across calls.
- `tests/` — tests of the library on concrete values.
- `app/` — the game program: engine systems, rendering, floating-point geometry and
  steering, configuration and level files. It asks the library what to do and applies it.
