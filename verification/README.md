# graybox

A Nintendo Entertainment System in verified Rust. The library in `src/` is written and
proved in Verus: every function carries a contract over mathematical models of the chips,
and the promises that span several functions are stated and proved as `law_*` functions.

| where | what |
| --- | --- |
| `cpu`, `disasm` | the processor on plain memory, and programs read without running them |
| `cartridge`, `album` | files, boards and banks, and the tile art they show |
| `ppu`, `beam`, `belt`, `signal` | the picture chip: registers, the beam, the belt that feeds it, the wave on the wire |
| `apu`, `pulse`, `triangle`, `noise`, `pattern`, `dmc`, `conductor`, `length`, `envelope`, `timer` | the sound chip, part by part |
| `bus`, `heartbeat`, `clock`, `pace`, `controller`, `machine` | the wiring, the time that passes on it, and the whole machine |
| `debugger`, `session`, `sleep`, `grader` | stopping, stepping, running without a window, telling a run that never ends, running against a log |
| `canvas`, `font`, `picture`, `text`, `options`, `bits` | painting, pictures, numbers as text, the command line |

`app/` is the program around the library: the window, the speaker, the files, and the
floating-point arithmetic of colors and sound. `tests/` runs the library.

A machine that the contracts speak of is *in step*: three dots of picture have gone by for
every cycle on its odometer. The machine's contracts ask for that, for a cartridge with at
least one bank of program, and for room on the odometer.

The debugger steps and shows the registers. It has no traps and no pages: the switches
`--break`, `--watch` and `--ledger` are read, but the first two only make a session run a
second longer, and the third changes nothing.

The machine fetches no samples for the sound chip's fifth voice and answers no interrupt. The
voice itself, its fetches and its flags are all in the library; nobody on a whole machine
hands it its bytes.
