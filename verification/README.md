# gravlume_render

The decision logic of the Gravlume GPU renderer, verified with Verus.

`src/` holds what the renderer decides and computes apart from GPU calls:

- `extent`, `tiles`, `progress`, `frame`: render extents and their generations, the tile grid,
  the progressive row-major trace schedule and the publication gate of a frame;
- `budget`, `benchmark`: texture, storage and core-resource budgets of an extent;
- `capabilities`: adapter admission and presentation-surface selection (HDR or SDR with its
  fallback reason);
- `surface`, `renderer`: acquisition directives, the per-frame protocol, and the renderer's
  resize, trace-submission, publication and presentation-completion state;
- `timing`, `capture`, `inspection`: timestamp, texture and sample-inspection readbacks and
  their byte protocols;
- `plan`, `shader`: trace plans, pipeline entry points, bind-group layouts and WGSL composition;
- `errors`: device events and resize errors.

`app/` converts between wgpu values and the library's plain values, performs the GPU
readbacks, and holds the floating-point timing arithmetic. `tests/` exercise the library.
