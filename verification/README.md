# rust_nam

A mono guitar-amp plugin with a noise gate, built on nih-plug and egui.

- `src/` is the verified library:
  - `params` describes the plugin's parameters (names, ranges and defaults in
    tenths of their unit, storage, skew, smoothing, formatting) and proves that
    every default lies in its range and every time constant is positive;
  - `gate` takes the noise gate's per-sample decisions (its target and which
    pole moves it);
  - `editor` decides what the host is told while a slider is dragged or the
    gate switch is clicked, proves that every drag is one complete gesture,
    and holds the editor's layout and window state.
- `app/` is the plugin itself: the nih-plug parameter objects, the egui
  drawing, and the floating-point signal path, which call into the library.
- `tests/` exercises the library on concrete values.
