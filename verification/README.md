# stm32h750xx_mt25_ql512_dfm

Flash algorithm for probe-rs, for two Micron MT25QL512ABB NOR flash chips
wired to the QUADSPI of an STM32H750 in Dual Flash Mode (byte interleaved,
128 MB logical at `0x9000_0000`).

The library (`src/`) is verified with Verus. It describes every flash
operation as a sequence of register accesses (`bus::BusOp`) and proves what
each sequence sends:

- `ccr`: the CCR words of the commands, with their field layout;
- `cmds`: the MT25QL512ABB command set;
- `regs`: register map, configuration words and flash geometry;
- `gpio`: alternate-function setup of the QUADSPI pins;
- `status`: folding of the two chips' status registers and the WIP test;
- `flash`: `Algorithm` with start-up, chip erase, sector erase and page
  program sequences, and the laws on what they write. Between operations
  the QUADSPI is left in memory-mapped mode (four-byte quad output fast
  read, 0x6C, 8 dummy cycles); pages are programmed with the four-byte
  page program (0x12);
- `verify`: chunked read-back comparison, one 64-byte chunk per step.

`app/main.rs` is the flash algorithm binary: it performs the sequences on
the memory-mapped registers and implements `flash_algorithm::FlashAlgorithm`.
