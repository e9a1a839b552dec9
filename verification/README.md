# circulartrackpad

A userspace driver for the circular trackpad of the Panasonic Let's Note. The
verified library (`src/`) holds the logic:

- `config`: configuration resolution (command line over file over built-in
  defaults), the validation rules in order, shortcut parsing against evdev's key
  table, the configuration path from `XDG_CONFIG_HOME`/`HOME`, and the service
  restart command.
- `gestures`: the multitouch state machine: slots, taps and clicks, the
  two-finger upward swipe, ring zones, button modes, detent accounting. Each
  event's effect is stated by the `step` model; the floating-point work
  (angles, accumulators, pointer scaling) is requested through `Motion`.
- `laws`: properties of both that hold for every input.

`app/` is the program: command-line parsing, reading and parsing the TOML file,
the floating-point settings and motion, evdev input and uinput output.
