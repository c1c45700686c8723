# kawa

The logic of the Kawa and MidiElements synthesizer firmwares (STM32F407
boards around the Mutable Instruments Elements engine), written in Verus with
its behaviour stated in contracts and proved.

- `src/` is the verified library:
  - `geometry`: points, sizes and the area a set of drawn widgets covers;
  - `kawa`: the MIDI note stack, the voice events and the calls they make to
    the synth engine, patches and the flash patch store, the trigger input,
    and the panel UI (buttons, knobs, text boxes, the pages and what each
    widget on them does, the patch browser);
  - `midi_elements`: the encoder reading, the knob handlers of the engine
    parameters, and the MidiElements widgets and panels.
- `tests/` runs the library on concrete values.
- `app/` is the firmware around it: board setup, the display, the MIDI port,
  flash programming, the interrupt handlers and the calls into the Elements
  engine, and the floating-point parameter arithmetic.
