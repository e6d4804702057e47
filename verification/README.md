# neko

A desktop cat that chases the mouse cursor. The decisions of the cat live in
the verified library under `src/`, written in Verus:

- `state`: the cat's state, its directions and the frame to draw;
- `behavior`: one fixed tick (idle progression, chasing, timing, sound cues)
  and the properties every tick keeps;
- `assets`: the catalogue of frames and sounds and a store of loaded handles;
- `audio`: which sounds to play for the cues of a tick;
- `platform::cursor`: monitor rectangles, the monitor layout (sorted with the
  primary monitor first), active-monitor choice, centring and clamping limits;
- `platform::{linux, macos, windows, unsupported}`: each cursor backend's
  capabilities.

`app/` is the Bevy application around it: the window, rendering, input,
sound, the platform cursor queries, and the floating-point geometry (window
position, distances and angles), which it hands to the library as plain
integers.
