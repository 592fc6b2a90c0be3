# gameplay_core

The rules of a small top-down Bevy game, verified with Verus.

- `src/terrain.rs`: spawning the terrain grid through bevy `Commands` and
  recording its tiles in a `bevy_ecs_tilemap` tile storage. The contract
  states the queued commands exactly: the tilemap's spawn, then for each cell
  its fresh tile's spawn at that position and its parenting to the tilemap.
- `src/controller.rs`: reading the steering keys, resolving one frame of
  keyboard, gamepad and cursor input into the player's state, intent source
  and facing source, and the speed tier of each state.
- `src/player.rs`: the vision cone's scale in each state.
- `src/dev_tools.rs`: the developer overlay and fog toggles.

`app/` is the Bevy program around the library: plugins, systems, asset
loading, and the floating-point vector math.
