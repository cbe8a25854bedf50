# playform

Voxel surface data and the client's input and window decisions of the
playform game, verified with Verus.

- `src/fixed.rs`: byte-sized fixed-point fractions.
- `src/surface_vertex.rs`: volume and surface voxels, brushing a leaf voxel,
  the homogeneity test of a voxel's corners, normal negation and quantization.
- `src/controls.rs`: keyboard and mouse input turned into player actions.
- `src/view_loop.rs`: the view loop's quit and focus decisions.
- `app/`: the floating-point geometry and mob movement (cgmath) and the SDL2 event glue that
  call the library.
