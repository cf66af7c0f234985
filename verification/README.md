# platformer

A small Bevy platformer whose levels come from an LDtk project.

- `src/` is the verified library (Verus). It holds the game's level logic on
  plain integers: the order and depth of a level's layers, where tiles,
  int-grid cells and entities go, how an entity's extra facts are looked up in
  the project's definitions, how tileset images are cut into sprite sheets,
  when the level is drawn, and the player's movement decisions. Each function
  has a contract, and the `lemma_*` proof functions state the library's laws.
- `app/` is the game itself: Bevy systems and plugins, loading the LDtk file,
  copying its fields into the library's types, and everything computed in
  floating point (world coordinates, rotations, physics).
- `tests/` runs the library on concrete inputs.
