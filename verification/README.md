# myrmex

The rules of the Myrmex universe simulator, verified with Verus.

- `src/` is the library: universe identifiers and save file names (`save`,
  `decimal`), the home screen and what loading a save does (`home`, `load`),
  the height view (`height`), the in-game menu windows (`menu`), the tile
  layout of the map (`tilemap`), the camera's direction (`camera`), the flat
  universe records (`state`) and the inspector's panel views (`panel`).
  The clock is read through `clock`.
- `tests/` runs the library on concrete values.
- `app/` is the game around it: the Bevy plugins and systems, the egui
  windows, the save files on disk and their JSON form.
