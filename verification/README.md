# pc_emulator

A board that emulates a Tock PC on a Unix host, as a verified library.

- `src/gpio.rs`, `src/led.rs`: GPIO pins and LEDs of either polarity.
- `src/unix_led.rs`: the board's LED, whose state the console shows.
- `src/alarm.rs`: the alarm, its tic arithmetic and its client.
- `src/chip.rs`, `src/channel.rs`: the chip and its event channel.
- `src/syscall.rs`: the kernel/process boundary, which declines every operation.
- `src/text.rs`, `src/emulator.rs`: the line protocol with the application
  process: parsing its arguments, deciding the request, writing the reply.
- `app/`: the host side (clock, timer threads, the process's streams, the
  kernel loop), which builds inside the board's source tree.
