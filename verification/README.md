# cosmic_audio_bg

An audio-reactive desktop background for Wayland compositors. The library in
`src/` is verified with Verus; `app/` is the daemon around it.

- `src/config.rs` — the configuration model: modes, power switches, defaults,
  per-machine overrides, environment overrides, the effective frame rate and
  the frame timer period.
- `src/paths.rs` — where the configuration and the per-machine override live.
- `src/layer.rs` — logical and physical sizes of a background layer and of its
  shared-memory pool.
- `src/pixels.rs` — GPU readback row pitch, row unpadding, and RGBA to
  XRGB8888 conversion.
- `src/menu.rs` — the rows of the mode menu and its 5x7 bitmap font.
- `src/power.rs` — battery and lid decisions from what was read of sysfs/procfs.
- `src/text.rs` — the string operations these need (trim, search, equality,
  unsigned decimal parsing).

`app/` holds the Wayland client, the wgpu renderer, the PulseAudio capture
and FFT analysis (all floating point), the RON file handling, and the menu's
geometry and drawing.
