# ra6m5_hal

A hardware-abstraction layer for the Renesas RA6M5 microcontroller whose
decisions are verified with Verus.

The library works on plain-value models of the peripheral registers. Each
operation states, in its contract, which fields it reads, which it writes and
what it refuses; where the hardware must be waited on between writes, it hands
back the ordered writes and waits instead of performing them.

## Layout

- `src/`: the verified library.
  - `sysc`, `sysc/clock`: system clock sources, dividers and the planned switch
    of the system clock; `sysc/clock/osc`: the oscillators and PLLs;
    `sysc/clock/outclk`: the bus, output and peripheral clocks.
  - `fcache`, `flad`, `mstp`, `rtc`, `dbg`, `ofs1`, `register_protection`:
    flash wait states, flash clock setting, module stop, and register
    protection.
  - `gpio`: pin function settings (PmnPFS) and the pins of each port.
  - `icu`: interrupt event links.
  - `delay`: SysTick delays.
  - `usb`: the full-speed and high-speed device controllers; `usb/bus`: the
    endpoint layout of the high-speed bus; `usb/interrupt`: USBI decoding and
    standard requests; `usb/descriptor`: descriptor bytes; `usb/regs`: the USB
    register models and FIFO packing.
- `tests/`: tests of the library on concrete values.
- `app/`: the memory-mapped register access, busy waits and `embedded-hal`
  trait implementations around the library.
