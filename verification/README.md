# big-button

Firmware for a Raspberry Pi Pico 2 W (RP2350) with a push button and eight
LEDs. The decisions of the firmware are a Verus-verified library; the tasks
that talk to the hardware and the async runtime are ordinary Rust.

- `src/` — the verified library (`big_button`):
  - `state_machine.rs`: states, events, transitions, and laws about them;
  - `button/`: button IDs, debouncing decisions, the press watch that turns
    a settled press and release into a `ButtonMessage`;
  - `led/`: LED IDs and output levels, `set_status`, `LedMessage`;
  - `clocks_config.rs`: PLL dividers and the clock plan, clock accuracy;
  - `utility.rs`: de-obfuscation of XOR-encoded secrets into a
    `heapless::String<256>`;
  - `gpio.rs`: pin levels and an ID lookup.
- `app/` — `main`, the embassy tasks, the channels and signals, and the
  conversion of the clock plan into the HAL's clock configuration.
- `tests/` — tests of the library.
