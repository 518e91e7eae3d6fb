# jump_chain

The rules of a small 3D hopping game, verified with Verus.

A level is a grid of square platforms centred on the origin. Every platform
carries an arrow pointing along one of the four horizontal axes, drawn at
random. The player hops from platform to platform, one grid cell per jump,
always following the arrow of the platform it lands on; with no platform
below, it keeps going towards +Z.

- `src/direction.rs`: the four jump directions, their grid steps and the
  quarter turns of the arrows drawn for them.
- `src/level.rs`: the grid layout (cells, centre offsets in half pitches,
  random arrows).
- `src/movement.rs`: the choice of the next jump's direction.
- `src/random.rs`: the calls into `rand`.
- `app/`: the Bevy game around these rules (rendering, assets, and the
  floating-point flight of the player).
