# LPC82x HAL

A hardware abstraction layer for NXP LPC82x microcontrollers, verified with
Verus.

- `src/` is the library. Its peripheral APIs (SYSCON, switch matrix, pins,
  GPIO, pin interrupts, PMU, self-wake-up timer and the sleep decisions built
  on it, SPI, USART) compute on
  `pac`, a plain-value model of the registers they program, and each method's
  contract states which register bits it writes and which it leaves alone.
  Public proof functions state the laws that hold across calls, such as the
  read-back of USART settings and SPI configuration, the baud rate accuracy of
  the USART clock search, and switch matrix assignment being undone by
  unassignment, for every fixed and movable function.
- `tests/` runs the library on concrete register values.
- `app/` moves the modelled registers to and from the device through
  `lpc82x-pac`, and implements the `embedded-hal` traits (serial, SPI, count-down
  timer), the sleep loops, and the low-power and NVIC glue on top of the
  library.
