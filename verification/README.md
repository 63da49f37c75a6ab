# allium

Verified core of the Allium launcher for Miyoo handhelds, written in Verus.

- `src/dot_indicator.rs`: the page indicator, a column of dots that slides a
  window over a long list; which dots are shown, where, how large, and which is
  active.
- `src/recents.rs`: the carousel of recently played games: navigation, the
  menu on the shown game, core choice, and the work each key press asks for.
- `src/power.rs`, `src/clock.rs`, `src/settings.rs`: the settings types, their
  defaults, and what loading a settings file comes to.
- `src/usb_audio.rs`: choosing the audio output from the detection pin.
- `src/geom.rs`, `src/platform.rs`: points, rectangles and button events.

`app/` holds what runs around the library: reading and writing the settings
files with serde, the GPIO task that follows the USB audio pin, and the shared
resource map.
