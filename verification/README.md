# rust64_debug

The timing clock and the memory debugger of a Commodore 64 emulator, with
their logic verified by Verus.

- `src/clock.rs`: the clock's bookkeeping. Given the cycle that real time has
  reached, it advances, files the skipped cycles in a histogram and a sum, and
  hands out a report every 1.5 emulated seconds.
- `src/debugger.rs`: the debugger's view state (view, RAM page, VIC flag), the
  End / Page Up / Page Down keys, and the exact drawing commands of a frame of
  the debug window and of a pixel of the raster window.
- `src/vic.rs`: decoding of the VIC-II layout and mode registers.
- `src/text.rs`: fixed-width hexadecimal and binary rendering.
- `src/draw.rs`: the drawing commands handed to the bitmap font.
- `app/`: the wall clock, the minifb windows, the font and machine access,
  and the float colour blending of the raster window.
