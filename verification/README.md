# wm

A tiling window manager for X11 in the manner of dwm: a master stack on the left that
holds a window whenever the screen holds any, an aux stack to which new windows are
added, floating windows that are moved with `Mod+mouse-1` and resized with
`Mod+mouse-2`, `Mod+mouse-3` to re-tile a floating window, and virtual screens that
rotate with `Mod+Left` and `Mod+Right`.

The library under `src/` is written in Verus, and every function in it is proved
against its contract:

- `clients/`: the managed windows, their virtual screens and the tiling layout, with
  the laws of `clients/laws.rs`;
- `clients2.rs`, `client_logic.rs`: a store of clients by kind and a layout over
  workspaces;
- `state.rs`: the window manager as a function from state and event to the next state
  and the requests for the window server;
- `backends/`: events, key and button codes, X atoms and masks, and the decoding of X
  events from their fields;
- `maps.rs`: the contracts under which the library uses `indexmap`.

`app/` is the program around it: configuration, logging, and the Xlib calls that carry
out the library's requests and feed it events.
