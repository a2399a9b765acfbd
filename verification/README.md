# luminance-gl, verified

The decision-making core of the luminance OpenGL 3.3 and WebGL 2 backends, written in Verus:

- `state`, `webgl2_state`: the graphics state caches. Each setter answers with the GL call to
  make, if any, so that a call already reflected in the context is never repeated. Texture units
  and uniform buffer bindings are handed out by a binding stack.
- `pipeline`, `tess`: render states, pipeline start, vertex layouts and draw calls.
- `texture`, `framebuffer`, `shader`, `shader_data`: storage allocation, texel uploads, sampler
  parameters, completeness statuses, uniform type checking and shader data buffers.
- `std140`: the std140 layout of uniform data.
- `windowing`, `errors`, `demo`: window options, error messages, and the decisions of the example
  programs.

`app/` performs the calls on a real OpenGL context with the `gl` crate.
