# kernel

The core of a small embedded kernel for the Nucleo-F446RE board, verified with
Verus.

- `src/kernel.rs`: work, process slots and grants; `src/kernel_laws.rs`: what
  holds over the life of a kernel.
- `src/run.rs`: one time slice of a process, as a state machine;
  `src/run_laws.rs`: what holds of every slice.
- `src/main_loop.rs`: the main loop, which pends one interrupt twice;
  `src/main_loop_laws.rs`: what holds of it.
- `src/chip.rs`, `src/board.rs`: the chip and the board.
- `app/`: performs what the library decides, on the hardware.
