# syndebug

Writes values out as Rust syntax meant to read back as an expression for
the value (`Option::Some( 7u8, )`, `vec![ true, ]`, `String::from( "a", )`).
Each rendering's exact text is stated and proved; that the text reads back
to the value is proved for integers (`text::lemma_int_text_round_trip`).
String literals rest on std's `Debug` quoting, and no read-back is proved
for compound values.

- `src/lib.rs` — the `SynDebug` trait (`fmt` appends a value's rendering to a
  `String`; its contract gives the exact text), `to_writer`, `to_string`.
- `src/text.rs` — decimal integers (with the proof that the spelling reads
  back to the integer), string quoting, comma-terminated lists.
- `src/ints.rs`, `src/tuples.rs`, `src/impls.rs` — the renderings of integers,
  tuples of up to twelve elements, and std's containers, references and sum types.
- `src/record.rs` — the field-by-field shape of a user's struct or enum, with
  the proof that the helpers called in order write the whole record's text.
- `src/wrap.rs` — `DebugAsSyn`.
- `app/` — writing to any `fmt::Write`, `Debug` for `DebugAsSyn`, floats, `NonZero`.

Constant mode (`const_like = true`) asks for text that could stand in a
constant; `Vec`, `String` and `Box` have none, and a `Cow` is then always
written as borrowed.
