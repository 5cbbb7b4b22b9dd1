# freenukum

The game logic of Freenukum, a clone of the jump'n'run game Duke Nukem 1,
written in Verus: every function in `src/` carries a contract. Verus proves
all of them except three small trusted wrappers, whose contracts it takes on
trust: the random numbers from `rand`, and the building of a `String` from
characters and of a character's `Debug` text with std.

- `src/hero.rs` – the hero and one game step of him.
- `src/level/` – the level grids (`solids`, `tiles`, `raw`) and the actors
  (`actor/`): one module per kind of actor, `specific.rs` that dispatches
  on the kind, `list.rs` with the list of actors and a whole step of them,
  and `look.rs` with the tiles each actor is drawn with.
- `src/borders.rs`, `src/bot.rs`, `src/messagebox.rs`, `src/inputbox.rs`,
  `src/inputfield.rs`, `src/mainmenu.rs` – what the user interface shows and
  how it reacts to keys, as tile lists and plain values.
- `src/episodes.rs`, `src/data.rs`, `src/backdrop.rs` – the episodes and
  the data files.
- `app/lib.rs` – the glue to the outside: the file system and the loops
  that wait for the player, drawing through a `Screen` trait.
- `tests/` – tests on concrete values.
