# engine

The engine of a lane minimap for a MOBA: the structures of the map (turrets,
inhibitors, nexuses), an entity store, minion waves and when they spawn, and an
engine that moves a game forward. The library in `src/` is written in Verus; its
functions carry contracts that Verus proves.

Layout:

- `src/common.rs`: teams, lanes, the game clock (saturating arithmetic).
- `src/ecs/`: entity identifiers (bit layout, decoding), the entity store and its
  builder, structures and minions as store entities, the wave builder and the spawn
  schedule.
- `src/wave/`: waves as values (their minions, gold and speed) and the per-lane
  spawner.
- `src/stats.rs`: gold and last hits of groups of units.
- `src/event.rs`: events and the trait of their consumers.
- `src/engine_renderer.rs`, `src/grid/`, `src/display_manager/`: the selection state
  machine of the map canvas and the panes of the layout.
- `src/lib.rs`: the minimap engine: the structures a game starts with, and the waves
  each step of the clock spawns.
- `app/`: a command-line runner. It keeps what the library leaves to its caller:
  map coordinates and lane paths (floating point, with `lyon`), walking minions
  along their lanes, a spatial index (`rstar`), unit statistics, and writing the
  structures as JSON (`serde`).
  It has no window: the interactive front end (panes, map canvas, debug overlay),
  reading the map from files and pathfinding over a navigation mesh are not part of
  it, since the GUI toolkit and the triangulation and geometry crates they need are
  not among the dependencies; minions walk along their lane paths instead.
- `tests/`: tests of the library.

Laws proved in `src/` (public proof functions) include: identifiers decode back
to the team and lane they were made from and never collide; a fallen turret stays
down and plates only go; a wave builder hands out exactly its minions in order,
each further behind; spawn times are sound, and complete when the clock starts
before the first spawn or on the 30-second schedule; two clock steps that stop on
that schedule spawn what one step over the same time does; saturating clock
arithmetic cancels when it does not saturate; gold and last hits add up over
groups.
