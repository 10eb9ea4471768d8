# xous_core

The decision logic of a few operating-system components, verified with Verus:

- `llio`, `llio_laws`: the low-level I/O server, and what holds of it as a whole
- `i2c`: the I2C server, which puts a suspend off until the bus is free
- `rtc`: the two alarms of the real-time clock
- `callbacks`: the tables of event subscribers
- `gdb`: the debug server of the kernel
- `dma`, `lfsr`: the self-test of the DMA controller, and its test pattern
- `textview`: the posting of a text view
- `loader`: constants of the loader
- `message`: the kinds of message

The library decides, and `app/` acts: it receives messages, carries out the
actions that the library gives, and hands back what comes of them. There the
operating system and the hardware are reached through traits.
