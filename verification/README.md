# gb_gba_emu

Game Boy and Game Boy Advance emulation cores whose behaviour is stated in contracts
and proved with Verus, with a desktop front end around them.

## Layout

- `src/common.rs` — the stepping interface shared by the cores, run statistics and the
  serial-link endpoint trait.
- `src/gb/` — the Game Boy: cartridge and memory bank controllers, memory bus, CPU,
  PPU, sound registers and sample synthesis, and the Game Boy Printer.
- `src/gba/` — the Game Boy Advance: registers and modes, ARM and Thumb execution,
  BIOS calls done directly, the IRQ handler frame, bus with DMA and timers, and PPU.
- `src/link.rs` — the settings and status of the TCP serial link.
- `src/frontend.rs` — the status screen's font and text, the shade palette and the
  joypad byte built from keys.
- `src/text.rs` — decimal and hexadecimal formatting and header text decoding.
- `app/` — the desktop program: window, keyboard, file dialogs, save files and sockets.
- `tests/` — tests run against the compiled library.

Each model type has a spec-level view; the executable functions are proved equal to
it, and the `lemma_*` proof functions state the laws that hold across calls.
