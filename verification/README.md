# sdl2_event

Event handling for SDL2, with the decoding and encoding of SDL's raw
56-byte event records verified by Verus.

- `src/` — the verified library: the kinds of events (`event_type`),
  window sub-events (`window_event`), the key codes and scan codes that SDL
  defines (`keys`), the byte layout of raw records
  (`raw`), events and their decoding and encoding (`event`), the decisions
  around the event queue (`queue`), and the laws that hold of every record
  (`laws`). `text` holds the one trusted call, `String::from_utf8_lossy`.
- `app/` — the calls into the SDL2 C library (polling, waiting, filters,
  pushing, event states), which hand raw records to the library.
- `tests/` — tests of the library on concrete records.
