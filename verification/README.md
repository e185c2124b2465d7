# voicefox

The page logic of voicefox, a terminal music player, as a library verified
with Verus, and the terminal program around it.

- `src/` is the library. Every page of the player (play queue, search,
  leaderboards, playlists, favorites, history, local music, settings) is a
  state with methods whose contracts say exactly what a key press or a
  finished background load does to it and what it asks the program to do.
  Where the answer depends on something outside the library (where the
  layout solver puts the parts of the screen, how much time passed since
  the last click or key), the method that reads it states what holds
  whatever it reads, and a companion method (`handle_mouse_on`,
  `route_mouse_on`, `doubled_after`, `tick_after`) takes that reading as an
  argument and has the exact contract. `control.rs` holds the decisions of the main loop (where a
  key or a click goes, which global shortcuts act where), `actions.rs` what
  the program does with the pages' requests (messages, source fallback when
  a track cannot be played, JS source loading), and `layout.rs` the screen
  geometry. Laws that relate several calls are public proof functions
  named `lemma_*`.
- Outside code is reached through a few trusted wrappers: ratatui's layout
  solver (`layout::split`), the clock (`clock.rs`) and some `char`/`String`
  functions of std (`text.rs`).
- `tests/` exercises the library on concrete values.
- `app/` is the program: terminal, configuration, player, background work
  and drawing. It relies on the player's own core crates and modules
  (configuration, storage, player context, drawing components).
