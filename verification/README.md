# kiro_synth_host

The host of the Kiro synthesizer: MIDI input, audio output and the user
interface around the synth engine.

- `src/` is the library, verified with Verus: the MIDI controller mapping
  tables and what a MIDI message becomes, the Kiro synth's controller table
  and the grouping of its parameters into modules (the parameters themselves,
  with their ids and value ranges, are built in `app/`), the interleaving of
  audio frames, the modulation list and its grouping, and the data model of
  the user interface (parameters, knobs, modules, header). Amounts and values
  are generic, so the floating-point arithmetic stays out.
- `tests/` runs the library on concrete values.
- `app/` is the program: the engine, `cpal` audio, Jack MIDI, the `druid`
  user interface, and the floating-point conversions and sums.
