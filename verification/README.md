# Neural Galaga

A Galaga clone at the arcade resolution of 224×288, playable by a human and
driven by a learning agent. The rules of the game are a library verified with
Verus; the program around it (window, audio, floating-point motion and
drawing) is ordinary Rust.

## Layout

- `src/` — the verified library (`neural_galaga`):
  - `economy` — score, lives, currency, upgrades, inventory and shields: powerups,
    the buy/sell trade, hits taken and dealt, deaths, clearing a wave;
  - `enemies` — wave configurations, class stats, the formation layout, and who
    dives, who shoots, how and what drops;
  - `shield`, `powerups`, `effects` — shield levels, powerup kinds and placement,
    explosions, bursts, trails and background noise;
  - `session` — forks (snapshots) of a session kept by id;
  - `screen` — the program's screens and how keys and game events move
    between them;
  - `menu`, `input`, `actions` — menus and the pause menu, keyboard state,
    agent actions and step status;
  - `framebuffer`, `sprites`, `credits` — the RGBA framebuffer, sprite-sheet
    regions and the credits QR code.
- `tests/` — tests of the library on concrete values.
- `app/` — the `play` program: the game loop, enemy motion, rendering, audio,
  and the observation encoder and environment used by the agent.

Assets (sprite sheet, font, sounds, music) are read at run time from `assets/`.
