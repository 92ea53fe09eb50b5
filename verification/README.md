# rendering

The decisions behind rendering a stabilised video with FFmpeg, written and verified in Verus.

- `src/gpu.rs`: which GPU there is, as told by its name, and the device contexts it needs.
- `src/encoders.rs`: the encoders to try for a codec, best first, on a given system and GPU.
- `src/shared.rs`: the same over what threads share behind `parking_lot` locks.
- `src/settings.rs`: how the decoder, the encoder and the output are set up.
- `src/planes.rs`: pixel formats and the planes their frames are processed in.
- `src/frames.rs`: what is done with each frame, as a step from an event to an action.
- `src/render_log.rs`: the log that is shown to the user.
- `src/text.rs`: finding words in texts.

Public proof functions, named `lemma_..`, state what holds of the library as a whole.

`app/` is ordinary Rust around it: the state of the process, FFmpeg's log callback, and the
loop that performs the actions. Floating point (trim points, frame rate, progress ratio) stays
there. `tests/` runs the library on concrete values.
