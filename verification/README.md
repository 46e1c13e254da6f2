# minecrust

A voxel world engine whose world logic is a verified library.

`src/` is the library, proved with Verus:

- `block` – the block kinds, their names and the block registry (render type, size,
  transparency, textures).
- `chunk`, `terrain` – chunks of 16 x 160 x 16 blocks, filling a chunk from a terrain
  sample, and the order of the generation stages.
- `biome`, `tree_generator`, `decoration`, `snow`, `rng` – the biomes, surface patches, trees,
  snow and plants, driven by a deterministic congruential generator.
- `command`, `command_prompt`, `command_suggester`, `block_suggester`, `lexing` – the command
  line: parsing and running `use`, `time` and `rotate`, the prompt's text, and which
  completions a line asks for.
- `input`, `world` – game modes, block edits and the chunks kept around the player.
- `mesh_builder`, `texture` – which cells and faces are drawn, the texture atlas layout and
  the tints.
- `rounding` – rounding integers and quotients to single precision, the way the world's
  coordinates and snow line are computed.

The laws that span several functions stand as public proof functions named `law_...`; the
other properties are the contracts of the functions themselves.

`app/` is the program around the library: the window and input (GLFW), OpenGL drawing,
floating-point terrain noise, the camera, the sky and the ranking of completions.

`tests/` runs the library on concrete inputs.
