# pip-switch-core

Control of the picture-in-picture (PIP/PBP) features of MSI monitors over
their USB HID command channel, verified with Verus.

- `src/` is the verified library: `text` (trimming, case folding, substring
  search), `protocol` (64-byte request packets and response parsing),
  `settings` (the setting table, user-facing names and monitor codes),
  `config` (configuration values and defaults), `transport` (the HID traits
  and device filtering), `monitor` (monitor selection and the client),
  `daemon` (hotkey and tray decisions, the tray icon) and `laws` (properties
  that tie these together).
- `app/` is the `pip-switch` program: the command line, the configuration
  file, the `hidapi` transport and the hotkey daemon (`pip-switch daemon`).
- `tests/` runs the library against a simulated HID stack.
