# pico_de_gallo

Host-side software for the Pico de Gallo USB bridge (a Raspberry Pi Pico 2
that exposes I²C, SPI, GPIO, UART, PWM, ADC and 1-Wire over postcard-rpc),
with its logic written in Verus and proved against its contracts.

## Layout

- `src/` — the verified library:
  - `wire`, `peripherals`, `uart`, `pwm`, `adc`, `onewire`, `device`:
    the protocol's request, response and error types, their wire indices
    and their messages;
  - `varint`, `batch`: postcard's varint framing and the encoding and
    decoding of I²C/SPI batch operations (decoding an encoded batch is
    proved to give it back, for any payloads held in memory);
  - `client`, `status`, `ffi`: client errors, the firmware compatibility
    check, C status codes and the decisions of the C interface;
  - `hal`: the error types, error kinds and the chip-select transaction
    state machine of the `embedded-hal` adapters;
  - `pins`, `monitor`: the firmware's GPIO pin bookkeeping, its edge
    monitors and the board's USB identity (IDs, strings, serial number, descriptor fields);
  - `numbers`, `args`, `scan`, `cli`: number and argument parsing and the
    command-line grammar of the `gallo` tool;
  - `text`, `display`: numerals and the tool's data output: data and hex
    dumps, the I²C scan grid cells, the version report and ROM ID lists
    (the table frame and the one-line configuration labels are printed
    by `app/`).
- `tests/` — tests of the library.
- `app/` — the `gallo` program: the postcard-rpc client over USB, the
  `embedded-hal` adapters and the C interface, calling the library for
  every decision.
