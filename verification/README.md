# gonedark

The platform and render-side logic of a small real-time tactics game, written in Verus:
the functions in `src/` carry contracts that the verifier proves.

Layout:

- `src/keys.rs`, `src/keybind.rs`, `src/codec.rs`: the key vocabulary, the rebindable
  action map (conflict-free by type invariant), and its comma-separated text encoding,
  with the round-trip and tolerance laws proved as public lemmas.
- `src/platform.rs`, `src/mix.rs`: the platform enums and traits, which synth sound a
  one-shot gameplay event plays, and which queued voices survive a push under the voice cap.
- `src/anim.rs`, `src/fade.rs`: animation-clip selection and its numeric codes, and the
  live age of tick-stamped fades (muzzle flash, impact, hitmarker).
- `src/mesh.rs`, `src/tokens.rs`: the cooked `.mesh` byte format and its parser, and which
  model stands for a unit, weapon or turret of each army.
- `src/command_panel.rs`, `src/objective_hud.rs`, `src/icon.rs`, `src/overlay.rs`,
  `src/picker.rs`, `src/hud.rs`: the view models of the HUD panels and their text.
- `app/`: the floating-point pose, voice and fade math, and the GPU upload glue, which
  stay outside the verifier.
- `tests/`: executable tests of the library.
