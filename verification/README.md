# rts

The rules of a small real-time strategy game, verified with Verus, and the
dedicated server built on them.

- `src/` is the library. Its functions carry `requires`/`ensures` contracts
  that Verus proves, except for a few trusted items that reach into outside
  crates and whose contracts are taken on trust: the glyph table of
  `font8x8` (`font`), the declaration of `hecs::World` and the three queries
  over it (`session`, `in_game`). The library covers:
  - lobbies (`lobby`), what the server does with each client message
    (`client_conn`), and the client's lobby screen (`lobby_screen`);
  - message framing (`codec`) and protocol constants (`msg`);
  - terrain maps with fog of war (`tilemap`, `world`), the arena and the demo
    map, the wire form of a map (`session`, `in_game`, `multiplayer`);
  - the per-tick decisions of a game session, unit templates, starting sets,
    training queues and the end of a game (`session`, `world`, `in_game`);
  - unit and building tables (`defs`), the bitmap font atlas (`font`),
    keyboard and mouse edges (`input`), resource manifests (`manifest`).
- `tests/` runs the library on concrete values.
- `app/` is the server program: sockets and JSON, the game-session thread
  with its float-based movement and combat, and the Lua runtime.

Laws that span several functions are public proof functions named `law_*`.
