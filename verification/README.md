# micropolis_core

The core of a Micropolis city simulator, written in Verus: the map and its
tiles, the terrain generator, the editing tools, the city simulation
(zones, fires, floods, power, traffic, census, evaluation) and the game
resources' formats. Each function states its behaviour in its contract and
Verus proves it.

- `src/`: the verified library.
- `tests/`: tests of the library on concrete values.
- `app/`: a command-line program around the library (export of a random
  terrain as JSON, loading of the resource files) and the parts that compute
  with floating point (the city score, the budget requests).
