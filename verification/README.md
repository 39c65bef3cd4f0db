# joshagachi_logic

The game logic of Joshagachi, a virtual-pet game built on Godot, written in
Verus with its behaviour stated in contracts and proved.

- `src/` is the verified library: scenes (`scene`), species (`species`), pets
  (`pet`), players (`user`), a player's saved form and how it is read back
  (`dictionary`), the save file's content (`save_data`), the screen flow
  (`game_screens`), the build banner (`debug_properties`), the web server's
  response headers (`web`) and string helpers (`text`).
- `app/` is the Godot extension and the web server around the library: scene
  tree, signals, tweens, files, JSON and HTTP.
- `tests/` runs the library on concrete values.
