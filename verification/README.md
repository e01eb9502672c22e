# robot_lab

Control logic of a two-wheeled robot built on the RP2040, verified with Verus.

- `src/motors.rs` — wheel motors on PWM slices: which compare field a duty
  cycle goes to, and how a slice is configured.
- `src/variable_speed.rs` — the variable-speed run as a list of duty settings
  and waits.
- `src/obstacle.rs` — ultrasonic distance measurement: wrap-safe timer
  arithmetic, the echo interrupt's state, and the trigger/measure loop as a
  step function.
- `src/line_follower.rs` — the line-following Moore machine.
- `src/clocks.rs` — PLL settings and the clock bring-up as a list of register
  operations; `src/clock_safety.rs` proves that list safe on a model of the
  clock hardware.
- `app/` — the firmware: reads and writes the peripheral registers and runs
  the loops, asking the library what to do at each step.
