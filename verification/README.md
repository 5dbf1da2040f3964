# snapforge

The verified core of `gaze`, a screen capture tool that prepares screenshots
for vision-language models: it sizes and re-encodes captures, draws numbered
pins and lettered rectangles on them, writes a prompt hint describing where
the markers are, and keeps the settings shared by the desktop app and the
command line.

## Layout

- `src/` — the library, written in Verus. Every function carries a contract
  that Verus proves: exact image sizing (double-precision rounding modelled
  bit for bit), pixel-exact marker drawing, settings editing, shortcut
  validation, the preview-window stack, debouncing, and the command-line
  decisions. Calls into `image`, `base64`, `serde_json` and `chrono` go
  through small trusted wrappers in `imaging.rs`, `encoding.rs`, `json.rs`
  and `command.rs`.
- `tests/` — tests of the library on concrete values.
- `app/` — the `gaze` command line: argument parsing (clap), files, the
  clipboard (arboard), JSON output (serde), and the floating-point conversion
  of annotation fractions to pixels and percentages.
