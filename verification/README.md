# headset_battery

The logic of a tray widget that shows the battery level of HyperX / HP wireless
headsets, written in Verus and verified.

- `src/devices.rs`: the supported (vendor, product) pairs, the choice of the HID
  interface to talk to, and the rows of the diagnostics table.
- `src/protocol.rs`: the battery query of each headset family (output report,
  optional input-report priming, index of the level in the answer).
- `src/reading.rs`: battery readings and the state machine of one read
  (enumerate, open, query, read, interpret).
- `src/license.rs`: the licence cache (JSON text), the decisions taken on the
  App Store's answers, and the clock.
- `src/ui.rs`: tray menu commands and window toggling.
- `src/text.rs`: character-level helpers (white space, trimming, search).
- `app/`: the Tauri shell and the HID I/O that drive the library.
