# flutter_rust_windows_embedder

The decision logic of a Flutter embedder for Windows games, written in Verus
and proved against its contracts: the overlay manager (focus, z-order,
keybinds, input routing, resize, device-loss cooldown), pointer and cursor
handling, the satellite window (its window procedure, its thread and its
render loop), the EGL/ANGLE context bookkeeping and the bring-up of the ANGLE
display (at start and after a lost device),
the frame hand-off between the engine and the host (damage, counters, full
repaints), device recovery and overlay start-up as state machines, the
secondary-view registry, and the primitive/text batching and draw ordering.

Layout:

- `src/` — the verified library, one module per concern.
- `tests/` — executable tests of the library, including a simulated engine
  that drives a satellite window through a resize.
- `app/` — the unverified host side: the process-wide manager, library
  loading, JSON parsing of window-control requests, floating-point
  conversions, and the loops that perform the outside steps the library's
  state machines ask for.

The Direct3D 11, DXGI and Win32 calls themselves are not part of this crate:
it does not depend on the `windows`, `winapi` or `directx_math` crates. The
drivers in `app/` declare each outside step as a method of a host trait
(`OverlayStartup`, `DeviceRecoveryHost`, `AngleHost`, `MakeCurrentHost`,
`WindowThreadHost`, `WindowProcHost`), to be implemented by the embedding
host on top of those crates; creating the renderers' GPU resources (shaders,
buffers, pipeline states) belongs there as well.
