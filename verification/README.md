# slate

The core of a web compatibility layer, written in Verus: web API calls are turned
into a closed set of state, layout and render instructions. The library holds the
logic of that pipeline with contracts that Verus proves; what it reads from outside
crates (slotmap, dashmap, wasmtime, wat, ttf-parser, rustybuzz, unicode-bidi, rand) comes
through small trusted wrappers whose contracts are stated, not proved, and input,
output, the script engine, the GPU and floating-point work stay in `app/`.

## Layout

- `src/` — the verified library.
  - `translator.rs` turns DOM calls into instructions; `state.rs` is the store
    those instructions act on; `bridge.rs` and `host.rs` are the buffer between the
    script runtime and the kernel.
  - `script.rs`, `unicode.rs`, `normalize.rs`, `complex.rs`, `gsub.rs`, `features.rs`,
    `shaping.rs`, `pipeline.rs`, `profiler.rs`, `text.rs`, `text_types.rs` and
    `text_split.rs` are the text stack: script runs, bidirectional ordering,
    segmentation, normalization, Arabic and Devanagari shaping, glyph substitution,
    OpenType features, the shaping cache, the shaping pipeline, stage timings, font
    reading and the font registry.
  - `storage.rs`, `forms.rs`, `pattern.rs`, `svg.rs`, `console.rs`, `dom.rs`,
    `webapi.rs`, `webgl.rs`, `wasm.rs`, `wasm_module.rs` and `event_loop.rs` are the
    web platform APIs.
  - `strs.rs` and `string_map.rs` are the string and map helpers the rest builds on.
- `tests/` — tests of the library on concrete values.
- `app/` — what the library leaves to ordinary Rust: the Boa script runtime, sled
  persistence, reading font files and drawing glyphs, scaling shaped glyphs from font
  units to sizes, glyph positioning (GPOS), the wgpu device, wasmtime instances, the canvas 2D context, and everything computed in
  floating point.

Each law the library keeps is a public proof function whose name starts with `law_`.
