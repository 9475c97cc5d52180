# secm-app

SysEnv Console Manager is a Windows desktop console for system tuning, network
diagnostics and hardware health. This crate holds its verified core.

- `src/` — the library, written in Verus. Each module states the decisions of one
  part of the user interface as contracts over mathematical models (`Seq`, `int`,
  views) and proves them: navigation, the toast queue, the log stream merge, the
  network tools' parameter checks and run state, service and settings write
  locks, network configuration requests, game presets, cleanup reports, disk
  health verdicts and the tray icon.
- `tests/` — executable tests of the library on concrete values.
- `app/` — the GPUI application around the library: window, tray, single-instance
  lock, Win32 calls, background work and rendering. Pixel geometry, colours and
  sensor readings are floating point and live here.
