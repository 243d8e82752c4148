# dayz_linux_gui_launcher

A launcher window for DayZ on Linux that starts the game through the
command-line `dayz-launcher`, reads the values to show on start from
`~/.config/dayz-linux-gui-launcher/config.toml`, and saves a named profile
there.

- `src/` is the verified library (Verus): the TOML tables of the
  configuration and their parsing and rendering through the `toml` crate
  (`table`, `toml_io`, `text`), the configuration document and its profiles
  and last-used values (`config`), the Steam choice (`steam`), the command
  line of a launch (`command`), the window's state and the changes its
  controls make (`launcher`), and the commands of the title bar and the
  window buttons (`window`).
- `app/` is the program around it: the egui window, file access, the file
  dialog and the process that starts the game.
- `tests/` runs the library on concrete values.
