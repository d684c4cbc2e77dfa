# Running Man Advance

A Game Boy Advance emulator core whose behaviour is stated in Verus
contracts and proved.

- `src/bus` — the memory map, I/O registers and devices: interrupts,
  timers, DMA, keypad, wait states, PPU timing, video rendering, Direct
  Sound, cartridge saves (SRAM, Flash 1M) and the GPIO real-time clock.
- `src/cpu` — the ARM7TDMI: registers and banks, CPSR, exceptions, the ARM
  decoders and executors, the Thumb decoder and executor, and the core
  that fetches, takes IRQs and halts.
- `src/gba.rs` — the machine: DMA before the core, HALT, clocks, power
  requests and the run loops.
- `src/loader.rs` — BIOS and ROM image checks and the cartridge header.
- `src/diagnostics.rs`, `src/host.rs` — headless runs, frame hashes and
  the frontend's report cadence.
- `app/` — the program around the library: command line, files, saves on
  disk and the SDL3 window.
