# opencadstudio

The verified core of Open CAD Studio's settings, themes, platform helpers
and geometric-constraint commands, written in Verus.

- `src/` is the library. Every function there carries a contract that
  Verus proves; calls into outside crates (`url`, `iced`, `acadrust`,
  `glam`) go through small trusted wrappers. Their contracts claim no more
  than the crates' sources show: where the result is a plain value they
  state it or name it, and the `glam` wrappers, whose results are
  floating-point vectors carried through unread, state nothing.
  - `app::config`, `app::theme`, `ui::style::fusion_theme`: colour
    palettes, `#RRGGBB` reading and writing, the theme list, theme-name
    parsing, canvas colours, the configuration and its migration.
  - `sys`: query percent-encoding, drawing hyperlinks, the graphics guard
    (`garde_graphique`) and the web error banner (`web_diag`).
  - `modules::parametric`: the constraint commands as state machines.
- `app/` is ordinary Rust around it: the settings file and its JSON form,
  iced themes and colours, floating-point colour and pick geometry,
  platform calls, and the browser host of the web build (banner, fatal
  screen, logger and panic hook, clipboard, downloads, `localStorage`).
- `tests/` holds the tests.
