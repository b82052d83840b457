# tcod

Rust bindings to the libtcod roguelike library, with a core verified by Verus.

- `src/` is the verified library: colours and their arithmetic (`color`), the key
  codes and the decoding of libtcod's key events (`key_code`, `keys`), the numbers
  handed to libtcod for background modes, alignments, renderers and font flags
  (`background_flag`, `flags`), and the grid and path-index checks of the path
  finders (`path`).
- `app/` holds the parts that call into the libtcod C library: consoles, maps,
  A* and Dijkstra path finders, the frame-rate functions, the named colours, and
  the colour operations that take a floating-point factor. It declares the C
  functions itself and leans on `src/` for every decision around the calls.
- `tests/` runs the verified functions on concrete values.
