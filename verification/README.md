# pixelflux

Capture settings, a low-latency H.264 encoder and decoder, and a pool of render targets, with
contracts that Verus proves.

The library in `src/` decides and makes no native call. An encoder or a decoder says which call
comes next, and takes the answer; its contract says what each answer leads to, and which failure is
reported for it. The adapters in `app/` make the calls to FFmpeg, GBM and GLES.

- `settings`, `float_bits`, `rate_control`: capture settings, their live-tunable part and the
  selection of the VBV multiple. Floating-point values are carried as their bits.
- `decoder`, `stream`: access units, luma planes and the protocol of the software decoder.
- `renderer`: opening of a renderer, and leasing, allocation and resizing of its targets.
- `vaapi`: configuration, frame checks, the opening sequence and the submission protocol of the
  encoder; `vaapi::laws` and `vaapi::cadence` collect what holds of every encoder.
- `rows`, `status`, `text`: pictures in rows, native results and decimal rendering.
