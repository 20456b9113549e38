# thetawave

The user-interface logic of the Thetawave space shooter as a verified library:

- `main_menu`: the selection state machine of the main menu (hover, arrow keys, confirm, sounds).
- `button`: labels, layouts, images and state changes of menu buttons.
- `character_selection`, `carousel`, `player`: players joining with a device, browsing the
  character carousel, readiness, and the start of a run.
- `hud`, `game_ui`, `screens`: what the in-game panels and overlays show.
- `animation`, `weapon`, `end_game`, `options`, `stats`, `audio`, `input`: sprite-sheet frames,
  weapon timers, the end-of-game transition, the options form, kill listings and the input values
  the menus read.

`src/` is verified with Verus; `tests/` exercises it; `app/` holds the engine systems (layout,
rendering, timers, floating-point effects) that call into the library.
