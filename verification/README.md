# mxbattery

Battery monitoring for Logitech BLE mice on macOS: a warn notification once
a day below the warn threshold, a critical one every critical period below the
critical threshold, and a menu-bar icon.

The logic is a Verus-verified library (`src/`):

- `hidpp` — HID++ 2.0 frame encoding and decoding for the three frame shapes.
- `battery` — dispatch of vendor-pipe bytes and `periph`, the per-peripheral
  state machine driven by the CoreBluetooth callbacks (discovery, device
  filter, battery-status handshake, frame-shape fallback).
- `device_filter`, `config` — which device to follow; thresholds and their
  invariant.
- `notifier` — when a reading fires a warn or critical notification, re-arming,
  muting, and the notification text.
- `daemon` — the event-loop decisions: rendering, showing and hiding the icon
  with a grace period, forwarding commands.
- `menubar`, `prefs_ui` — the status line, icon plan, and preferences form.
- `ipc`, `paths`, `launchd` — control-socket protocol and pid file, file
  locations, LaunchAgent property list.
- `clock`, `state`, `text` — plain time values, persisted notifier state, text
  routines.

`app/` is the program around it: command line, TOML/JSON files, the config
watcher, the Unix socket, launchctl, and the AppKit / CoreBluetooth /
UserNotifications glue (macOS only).
