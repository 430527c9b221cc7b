//! Renderings of the primitive integers: the `Debug` digits followed by
//! the type's name, so that the literal keeps its type (`7u8`, `-3i32`).
use vstd::prelude::*;
use vstd::string::StringExecFns;

use crate::text::{
    int_text, lemma_decimal_digits, lemma_int_text_round_trip, read_int, write_int,
    write_uint,
};
use crate::SynDebug;

verus! {

/// A primitive integer type: written as its value's `Debug` digits followed
/// by the type's name.
pub trait SynInteger: SynDebug {
    /// The value, as a mathematical integer.
    spec fn int_value(&self) -> int;

    /// The type's name, written after the digits.
    spec fn type_suffix() -> Seq<char>;

    /// Law: in either mode the rendering ends with the type's name, and what
    /// stands before it is a non-empty spelling that reads back as the value.
    proof fn lemma_reads_back(&self, const_like: bool)
        ensures
            self.syn_text(const_like).len() > Self::type_suffix().len(),
            self.syn_text(const_like).skip(
                self.syn_text(const_like).len() - Self::type_suffix().len(),
            ) == Self::type_suffix(),
            read_int(
                self.syn_text(const_like).take(
                    self.syn_text(const_like).len() - Self::type_suffix().len(),
                ),
            ) == Some(self.int_value()),
    ;
}

/// The spelling of `v` followed by `suffix` splits back into the two, and the
/// spelling reads back as `v`.
proof fn lemma_typed_literal(v: int, suffix: Seq<char>)
    ensures
        (int_text(v) + suffix).len() > suffix.len(),
        (int_text(v) + suffix).skip((int_text(v) + suffix).len() - suffix.len()) == suffix,
        read_int((int_text(v) + suffix).take((int_text(v) + suffix).len() - suffix.len())) == Some(v),
{
    lemma_int_text_round_trip(v);
    if v < 0 {
        lemma_decimal_digits((-v) as nat);
    } else {
        lemma_decimal_digits(v as nat);
    }
    let d = int_text(v);
    assert(d.len() >= 1);
    assert((d + suffix).take(d.len() as int) =~= d);
    assert((d + suffix).skip(d.len() as int) =~= suffix);
}

impl SynDebug for u8 {
    open spec fn syn_renderable(&self, const_like: bool) -> bool {
        true
    }

    open spec fn syn_text(&self, const_like: bool) -> Seq<char> {
        int_text(*self as int) + "u8"@
    }

    fn fmt(&self, f: &mut String, const_like: bool) {
        write_uint(f, *self as u128);
        f.append("u8");
    }
}

impl SynInteger for u8 {
    open spec fn int_value(&self) -> int {
        *self as int
    }

    open spec fn type_suffix() -> Seq<char> {
        "u8"@
    }

    proof fn lemma_reads_back(&self, const_like: bool) {
        lemma_typed_literal(*self as int, "u8"@);
    }
}

impl SynDebug for i8 {
    open spec fn syn_renderable(&self, const_like: bool) -> bool {
        true
    }

    open spec fn syn_text(&self, const_like: bool) -> Seq<char> {
        int_text(*self as int) + "i8"@
    }

    fn fmt(&self, f: &mut String, const_like: bool) {
        write_int(f, *self as i128);
        f.append("i8");
    }
}

impl SynInteger for i8 {
    open spec fn int_value(&self) -> int {
        *self as int
    }

    open spec fn type_suffix() -> Seq<char> {
        "i8"@
    }

    proof fn lemma_reads_back(&self, const_like: bool) {
        lemma_typed_literal(*self as int, "i8"@);
    }
}

impl SynDebug for u16 {
    open spec fn syn_renderable(&self, const_like: bool) -> bool {
        true
    }

    open spec fn syn_text(&self, const_like: bool) -> Seq<char> {
        int_text(*self as int) + "u16"@
    }

    fn fmt(&self, f: &mut String, const_like: bool) {
        write_uint(f, *self as u128);
        f.append("u16");
    }
}

impl SynInteger for u16 {
    open spec fn int_value(&self) -> int {
        *self as int
    }

    open spec fn type_suffix() -> Seq<char> {
        "u16"@
    }

    proof fn lemma_reads_back(&self, const_like: bool) {
        lemma_typed_literal(*self as int, "u16"@);
    }
}

impl SynDebug for i16 {
    open spec fn syn_renderable(&self, const_like: bool) -> bool {
        true
    }

    open spec fn syn_text(&self, const_like: bool) -> Seq<char> {
        int_text(*self as int) + "i16"@
    }

    fn fmt(&self, f: &mut String, const_like: bool) {
        write_int(f, *self as i128);
        f.append("i16");
    }
}

impl SynInteger for i16 {
    open spec fn int_value(&self) -> int {
        *self as int
    }

    open spec fn type_suffix() -> Seq<char> {
        "i16"@
    }

    proof fn lemma_reads_back(&self, const_like: bool) {
        lemma_typed_literal(*self as int, "i16"@);
    }
}

impl SynDebug for u32 {
    open spec fn syn_renderable(&self, const_like: bool) -> bool {
        true
    }

    open spec fn syn_text(&self, const_like: bool) -> Seq<char> {
        int_text(*self as int) + "u32"@
    }

    fn fmt(&self, f: &mut String, const_like: bool) {
        write_uint(f, *self as u128);
        f.append("u32");
    }
}

impl SynInteger for u32 {
    open spec fn int_value(&self) -> int {
        *self as int
    }

    open spec fn type_suffix() -> Seq<char> {
        "u32"@
    }

    proof fn lemma_reads_back(&self, const_like: bool) {
        lemma_typed_literal(*self as int, "u32"@);
    }
}

impl SynDebug for i32 {
    open spec fn syn_renderable(&self, const_like: bool) -> bool {
        true
    }

    open spec fn syn_text(&self, const_like: bool) -> Seq<char> {
        int_text(*self as int) + "i32"@
    }

    fn fmt(&self, f: &mut String, const_like: bool) {
        write_int(f, *self as i128);
        f.append("i32");
    }
}

impl SynInteger for i32 {
    open spec fn int_value(&self) -> int {
        *self as int
    }

    open spec fn type_suffix() -> Seq<char> {
        "i32"@
    }

    proof fn lemma_reads_back(&self, const_like: bool) {
        lemma_typed_literal(*self as int, "i32"@);
    }
}

impl SynDebug for u64 {
    open spec fn syn_renderable(&self, const_like: bool) -> bool {
        true
    }

    open spec fn syn_text(&self, const_like: bool) -> Seq<char> {
        int_text(*self as int) + "u64"@
    }

    fn fmt(&self, f: &mut String, const_like: bool) {
        write_uint(f, *self as u128);
        f.append("u64");
    }
}

impl SynInteger for u64 {
    open spec fn int_value(&self) -> int {
        *self as int
    }

    open spec fn type_suffix() -> Seq<char> {
        "u64"@
    }

    proof fn lemma_reads_back(&self, const_like: bool) {
        lemma_typed_literal(*self as int, "u64"@);
    }
}

impl SynDebug for i64 {
    open spec fn syn_renderable(&self, const_like: bool) -> bool {
        true
    }

    open spec fn syn_text(&self, const_like: bool) -> Seq<char> {
        int_text(*self as int) + "i64"@
    }

    fn fmt(&self, f: &mut String, const_like: bool) {
        write_int(f, *self as i128);
        f.append("i64");
    }
}

impl SynInteger for i64 {
    open spec fn int_value(&self) -> int {
        *self as int
    }

    open spec fn type_suffix() -> Seq<char> {
        "i64"@
    }

    proof fn lemma_reads_back(&self, const_like: bool) {
        lemma_typed_literal(*self as int, "i64"@);
    }
}

impl SynDebug for u128 {
    open spec fn syn_renderable(&self, const_like: bool) -> bool {
        true
    }

    open spec fn syn_text(&self, const_like: bool) -> Seq<char> {
        int_text(*self as int) + "u128"@
    }

    fn fmt(&self, f: &mut String, const_like: bool) {
        write_uint(f, *self as u128);
        f.append("u128");
    }
}

impl SynInteger for u128 {
    open spec fn int_value(&self) -> int {
        *self as int
    }

    open spec fn type_suffix() -> Seq<char> {
        "u128"@
    }

    proof fn lemma_reads_back(&self, const_like: bool) {
        lemma_typed_literal(*self as int, "u128"@);
    }
}

impl SynDebug for i128 {
    open spec fn syn_renderable(&self, const_like: bool) -> bool {
        true
    }

    open spec fn syn_text(&self, const_like: bool) -> Seq<char> {
        int_text(*self as int) + "i128"@
    }

    fn fmt(&self, f: &mut String, const_like: bool) {
        write_int(f, *self as i128);
        f.append("i128");
    }
}

impl SynInteger for i128 {
    open spec fn int_value(&self) -> int {
        *self as int
    }

    open spec fn type_suffix() -> Seq<char> {
        "i128"@
    }

    proof fn lemma_reads_back(&self, const_like: bool) {
        lemma_typed_literal(*self as int, "i128"@);
    }
}

} // verus!
