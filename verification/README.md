# breakout_rules

The rules of a Breakout game, verified with Verus, and the Bevy program that
plays it.

- `src/` is the verified library:
  - `game`: the game's states, score and lives, what each event does to them,
    the notifications for the embedding page, and the laws that every event
    keeps (consistency of lives and state, restarts, finished web games).
  - `board`: brick cells, torn edges and which edge a destroyed neighbour tears.
  - `layout`: the row-major brick grid, the cells an image difference keeps,
    and which layout the board starts with.
  - `mesh`: the fan triangulation of a brick's outline.
  - `collision`: the side of a box the ball hit and how its velocity is reflected.
  - `arena`: the arena's edges, walls and paddle travel in whole pixels.
  - `tear`, `util`: seeds for torn outlines, the xorshift32 generator, pixel spans.
  - `image`: decoding image bytes supplied by the page (through Bevy).
- `app/` is the Bevy program: systems, rendering, the floating-point geometry,
  and the page integration (reading `window.__BREAKOUT_CONFIG__`, dispatching events).
- `tests/` runs the library on concrete values.
