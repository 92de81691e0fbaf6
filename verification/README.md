# pcal6416a

A driver core for the NXP PCAL6416A 16-bit I2C I/O expander, written in Verus.

`src/` is the verified library:

- `lib.rs`: the bus address (`Address`) and the bus mode markers (`Mode`,
  `Async`, `Blocking`).
- `ll.rs`: the bus interface (`Interface`), the framing of register writes and
  reads, the register map (`Register`, command bytes per the PCAL6416A
  datasheet) and the big-endian encoding of a 16-bit register value.
- `hl.rs`: the pins (`Pin`, direction and pull markers, `split_pins`), the
  mapping from a pin number to its bit in a port register (`idx_to_mask_be`),
  the read-modify-write of one pin's bit (`Pin::set_bit`) and its laws.
- `hl/command.rs`: the register changes that each pin operation makes, a model
  of the register file, and the laws that say what each operation leaves in it.
- `hl/interrupt.rs`: the per-pin events of one interrupt, and the step function
  that decides when a wait for a level or an edge is over.

`app/` holds what Verus does not check: the I2C traffic, the mutex around the
device, the interrupt channels between tasks, the `async` pin methods and the
`embedded-hal` trait impls. It asks the library for every decision.

`tests/` runs the library on concrete values.
