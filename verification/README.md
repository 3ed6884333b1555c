# sysinfo_applet

The readings of a panel applet that watches the system: usage of the processors, the memory and the
graphics card, temperatures, network speeds and public addresses.

`src/` is the verified library.

- `refresh` is one refresh of the readings, as a conversation with the machine: each step takes an
  answer, puts it into `data`, and says what to ask next. `whole` says what a refresh does from
  start to end.
- `system`, `network`, `sensors`, `gpu`, `public_ip` and `command` make readings of what the machine
  answers. `retry` is the schedule of attempts that fail.
- `template` and `render` turn readings into what the panel shows. `reading` holds readings with
  what is shown of them, and `text` reads and writes short texts.
- `laws` is what holds of all of it.

The library is generic in the type of the value of a reading with a fraction; the applet uses
`f32`. Such a value comes with the number it rounds to.

`app/` asks the machine, rounds what has a fraction, and paints what is to be shown. `tests/` runs
the library.
