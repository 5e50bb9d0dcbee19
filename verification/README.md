# gl_quad

A coloured quad, drawn through OpenGL ES in a window.

`src/` is a library, verified with Verus, that decides everything: which
framebuffer configuration and which context to use, which OpenGL calls to make
and in which order, what to print, and what to do about the events of the window
system. It performs nothing of that itself. A setup is a state machine: it asks
a query, is handed the answer, and says what comes next.

- `config`, `startup`: the display's configuration, the window and the context.
- `gl`: the OpenGL interface as plain values.
- `geometry`, `shader`: the data of the quad, the shaders and their compilation.
- `setup`, `renderer`: making a renderer, drawing with it, letting go of it.
- `playback`: taking steps until OpenGL reports an error.
- `report`, `text`: the lines that are printed.
- `lifecycle`: the events of the window system.
- `trace`, `checks`, `ownership`: what holds of whole runs. `trace` is the making
  of a renderer, `checks` what becomes of it where OpenGL reports an error, and
  `ownership` a renderer's objects, from the first query over any number of
  frames to the last deletion.

`app/` performs what the library decides, with winit and glutin.
