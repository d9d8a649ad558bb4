# avaudio

Rust bindings for Apple's AVFAudio framework, split in two layers.

* `src/` is the verified library (checked with Verus). It holds the value logic of
  the bindings: raw-code conversions of the AVFAudio enums and option sets, the
  mapping of bridge status codes to errors, the flat payload encoding of music
  events (with a proved decode-after-encode round trip), PCM buffer geometry and
  channel splitting, callback-event decoding and argument checks.
* `app/` is the bridge layer: the `extern "C"` declarations of the Swift bridge,
  owned handles to AVFAudio objects, JSON decoding of bridge replies, callback
  trampolines and the async streams built on `doom-fish-utils`. It calls into the
  library for every decision listed above.

Floating-point values are carried through the library as IEEE-754 bit patterns
(`f64::to_bits` / `f32::to_bits`); the bridge layer converts them.

`tests/` exercises the library on concrete values.
