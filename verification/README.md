# engine_client

The verified core of a scenario client: the realtime emulator worker's
pacing, input mailbox and video/audio handoffs, the host loop's decisions,
launcher parsing, the cartridge library's rules, settings bookkeeping, the
local control protocol and the benchmark report. Every function in `src/`
is verified by Verus against its contract; the few calls into outside crates
(`sha2`, `directories`, and a few `std` string and hashing functions)
sit behind small trusted wrappers whose contracts are stated next to them.

Layout:

- `src/` — the library, one module per concern (`runtime`, `video`,
  `presenter`, `audio`, `output_config`, `host`, `input`, `launch`, `ipc`,
  `roms`, `paths`, `ordering`, `settings`, `sound`, `profiling`, `performance`,
  `benchmark`, `raster`, `native_video`, `probe`, `text`).
- `tests/` — tests that run the compiled library.
- `app/` — the program around the library: command line, files, the control
  socket, the worker thread and the audio device.
