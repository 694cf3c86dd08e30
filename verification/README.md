# gpu_widgets

A window of rectangular widgets drawn with wgpu. Each widget owns a layout
rectangle in normalized window coordinates; every frame the widgets are
advanced, laid out, drawn into CPU-side RGBA8 pixel buffers and uploaded as
textures onto one shared quad mesh.

- `src/` is the verified library (Verus): the quad mesh and its winding, the
  pixel fills of the pulsing-red, vertical-gradient, node and noise widgets,
  the per-widget pixel target (texture size and pixel buffer), which widgets
  still need GPU resources, the run loop's reaction to window events, the
  surface resize rule, and the choice button and node titles of the editor UI.
- `app/` is the program around it: window and GPU setup, the widget trait and
  its floating-point parts (colors, animation time, layout rectangles, node
  rasterization and blending), the shader source and the event loop.
- `tests/` exercises the library on concrete values.
