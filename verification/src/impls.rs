//! Renderings of std's containers, references and sum types.
use std::borrow::Cow;
use vstd::prelude::*;
use vstd::string::StringExecFns;

use crate::text::{
    all_renderable, lemma_list_text_push, list_text, quote_str, str_debug, write_list,
};
use crate::SynDebug;

verus! {

/// The unit value: `()`.
impl SynDebug for () {
    open spec fn syn_renderable(&self, const_like: bool) -> bool {
        true
    }

    open spec fn syn_text(&self, const_like: bool) -> Seq<char> {
        "()"@
    }

    fn fmt(&self, f: &mut String, const_like: bool) {
        f.append("()");
    }
}

/// `true` or `false`.
impl SynDebug for bool {
    open spec fn syn_renderable(&self, const_like: bool) -> bool {
        true
    }

    open spec fn syn_text(&self, const_like: bool) -> Seq<char> {
        if *self {
            "true"@
        } else {
            "false"@
        }
    }

    fn fmt(&self, f: &mut String, const_like: bool) {
        if *self {
            f.append("true");
        } else {
            f.append("false");
        }
    }
}

/// A slice: `[ a, b, ]`.
impl<T: SynDebug> SynDebug for [T] {
    open spec fn syn_renderable(&self, const_like: bool) -> bool {
        all_renderable(self@, const_like)
    }

    open spec fn syn_text(&self, const_like: bool) -> Seq<char> {
        list_text(self@, const_like)
    }

    fn fmt(&self, f: &mut String, const_like: bool) {
        write_list(f, self, const_like);
    }
}

/// An array is written as the slice of its items.
impl<T: SynDebug, const N: usize> SynDebug for [T; N] {
    open spec fn syn_renderable(&self, const_like: bool) -> bool {
        all_renderable(self@, const_like)
    }

    open spec fn syn_text(&self, const_like: bool) -> Seq<char> {
        list_text(self@, const_like)
    }

    fn fmt(&self, f: &mut String, const_like: bool) {
        write_list(f, self.as_slice(), const_like);
    }
}

/// A `Vec` needs the heap, so it has no constant rendering: `vec![ a, b, ]`.
impl<T: SynDebug> SynDebug for Vec<T> {
    open spec fn syn_renderable(&self, const_like: bool) -> bool {
        !const_like && all_renderable(self@, false)
    }

    open spec fn syn_text(&self, const_like: bool) -> Seq<char> {
        "vec!"@ + list_text(self@, false)
    }

    fn fmt(&self, f: &mut String, const_like: bool) {
        f.append("vec!");
        write_list(f, self.as_slice(), false);
    }
}

/// A string slice is written as its `Debug` text: quoted and escaped.
impl SynDebug for &str {
    open spec fn syn_renderable(&self, const_like: bool) -> bool {
        true
    }

    open spec fn syn_text(&self, const_like: bool) -> Seq<char> {
        str_debug((*self)@)
    }

    fn fmt(&self, f: &mut String, const_like: bool) {
        let quoted = quote_str(*self);
        f.append(quoted.as_str());
    }
}

/// The text of an owned string whose quoted form is `quoted`:
/// `String::from( "..", )`.
pub open spec fn string_from_text(quoted: Seq<char>) -> Seq<char> {
    "String::from( "@ + quoted + ", )"@
}

/// Appends `String::from( quoted, )`, where `quoted` is a string's `Debug` text.
pub fn write_string_from(f: &mut String, quoted: &str)
    ensures
        final(f)@ == old(f)@ + string_from_text(quoted@),
{
    f.append("String::from( ");
    f.append(quoted);
    f.append(", )");
    assert(f@ =~= old(f)@ + string_from_text(quoted@));
}

/// A `String` needs the heap, so it has no constant rendering.
impl SynDebug for String {
    open spec fn syn_renderable(&self, const_like: bool) -> bool {
        !const_like
    }

    open spec fn syn_text(&self, const_like: bool) -> Seq<char> {
        string_from_text(str_debug(self@))
    }

    fn fmt(&self, f: &mut String, const_like: bool) {
        let quoted = quote_str(self.as_str());
        write_string_from(f, quoted.as_str());
    }
}

/// A shared reference: `&` before the referent.
impl<T: SynDebug + ?Sized> SynDebug for &T {
    open spec fn syn_renderable(&self, const_like: bool) -> bool {
        <T as SynDebug>::syn_renderable(*self, const_like)
    }

    open spec fn syn_text(&self, const_like: bool) -> Seq<char> {
        "&"@ + <T as SynDebug>::syn_text(*self, const_like)
    }

    fn fmt(&self, f: &mut String, const_like: bool) {
        f.append("&");
        <T as SynDebug>::fmt(*self, f, const_like);
        assert(f@ =~= old(f)@ + self.syn_text(const_like));
    }
}

/// A mutable reference: `&mut ` before the referent.
impl<T: SynDebug + ?Sized> SynDebug for &mut T {
    open spec fn syn_renderable(&self, const_like: bool) -> bool {
        <T as SynDebug>::syn_renderable(&**self, const_like)
    }

    open spec fn syn_text(&self, const_like: bool) -> Seq<char> {
        "&mut "@ + <T as SynDebug>::syn_text(&**self, const_like)
    }

    fn fmt(&self, f: &mut String, const_like: bool) {
        f.append("&mut ");
        <T as SynDebug>::fmt(&**self, f, const_like);
        assert(f@ =~= old(f)@ + self.syn_text(const_like));
    }
}

/// A box needs the heap, so it has no constant rendering: `Box::new( x, )`.
impl<T: SynDebug + ?Sized> SynDebug for Box<T> {
    open spec fn syn_renderable(&self, const_like: bool) -> bool {
        !const_like && <T as SynDebug>::syn_renderable(&**self, false)
    }

    open spec fn syn_text(&self, const_like: bool) -> Seq<char> {
        "Box::new( "@ + <T as SynDebug>::syn_text(&**self, false) + ", )"@
    }

    fn fmt(&self, f: &mut String, const_like: bool) {
        f.append("Box::new( ");
        <T as SynDebug>::fmt(&**self, f, false);
        f.append(", )");
        assert(f@ =~= old(f)@ + self.syn_text(const_like));
    }
}

/// `Option::Some( x, )` or `Option::None`.
impl<T: SynDebug> SynDebug for Option<T> {
    open spec fn syn_renderable(&self, const_like: bool) -> bool {
        match self {
            Some(inner) => inner.syn_renderable(const_like),
            None => true,
        }
    }

    open spec fn syn_text(&self, const_like: bool) -> Seq<char> {
        match self {
            Some(inner) => "Option::Some( "@ + inner.syn_text(const_like) + ", )"@,
            None => "Option::None"@,
        }
    }

    fn fmt(&self, f: &mut String, const_like: bool) {
        match self {
            Some(inner) => {
                f.append("Option::Some( ");
                inner.fmt(f, const_like);
                f.append(", )");
                assert(f@ =~= old(f)@ + self.syn_text(const_like));
            },
            None => {
                f.append("Option::None");
            },
        }
    }
}

/// `Result::Ok( x, )` or `Result::Err( e, )`.
impl<T: SynDebug, E: SynDebug> SynDebug for Result<T, E> {
    open spec fn syn_renderable(&self, const_like: bool) -> bool {
        match self {
            Ok(inner) => inner.syn_renderable(const_like),
            Err(inner) => inner.syn_renderable(const_like),
        }
    }

    open spec fn syn_text(&self, const_like: bool) -> Seq<char> {
        match self {
            Ok(inner) => "Result::Ok( "@ + inner.syn_text(const_like) + ", )"@,
            Err(inner) => "Result::Err( "@ + inner.syn_text(const_like) + ", )"@,
        }
    }

    fn fmt(&self, f: &mut String, const_like: bool) {
        match self {
            Ok(inner) => {
                f.append("Result::Ok( ");
                inner.fmt(f, const_like);
                f.append(", )");
            },
            Err(inner) => {
                f.append("Result::Err( ");
                inner.fmt(f, const_like);
                f.append(", )");
            },
        }
        assert(f@ =~= old(f)@ + self.syn_text(const_like));
    }
}

/// The text of a `Cow` given the rendering of what it holds:
/// `Cow::Borrowed( x, )` or `Cow::Owned( x, )`.
pub open spec fn cow_text(borrowed: bool, inner: Seq<char>) -> Seq<char> {
    if borrowed {
        "Cow::Borrowed( "@ + inner + ", )"@
    } else {
        "Cow::Owned( "@ + inner + ", )"@
    }
}

/// Appends `Cow::Borrowed( ` or `Cow::Owned( `, then `x`, then `, )`.
fn write_cow<X: SynDebug + ?Sized>(f: &mut String, borrowed: bool, x: &X, const_like: bool)
    requires
        x.syn_renderable(const_like),
    ensures
        final(f)@ == old(f)@ + cow_text(borrowed, x.syn_text(const_like)),
{
    if borrowed {
        f.append("Cow::Borrowed( ");
    } else {
        f.append("Cow::Owned( ");
    }
    x.fmt(f, const_like);
    f.append(", )");
    assert(f@ =~= old(f)@ + cow_text(borrowed, x.syn_text(const_like)));
}

/// A `Cow` of a sized value, whose owned form is the value itself.
///
/// In constant mode the value is always written as borrowed, since only a
/// reference can stand in a constant.
impl<'a, T: SynDebug + Clone> SynDebug for Cow<'a, T> {
    open spec fn syn_renderable(&self, const_like: bool) -> bool {
        match self {
            Cow::Borrowed(b) => <T as SynDebug>::syn_renderable(*b, const_like),
            Cow::Owned(o) => <T as SynDebug>::syn_renderable(o, const_like),
        }
    }

    open spec fn syn_text(&self, const_like: bool) -> Seq<char> {
        match self {
            Cow::Borrowed(b) => cow_text(true, "&"@ + <T as SynDebug>::syn_text(*b, const_like)),
            Cow::Owned(o) => if const_like {
                cow_text(true, "&"@ + <T as SynDebug>::syn_text(o, true))
            } else {
                cow_text(false, <T as SynDebug>::syn_text(o, false))
            },
        }
    }

    fn fmt(&self, f: &mut String, const_like: bool) {
        match self {
            Cow::Borrowed(b) => write_cow(f, true, b, const_like),
            Cow::Owned(o) => if const_like {
                write_cow(f, true, &o, true)
            } else {
                write_cow(f, false, o, false)
            },
        }
    }
}

/// A `Cow` of a string slice, whose owned form is a `String`.
impl<'a> SynDebug for Cow<'a, str> {
    open spec fn syn_renderable(&self, const_like: bool) -> bool {
        match self {
            Cow::Borrowed(b) => true,
            Cow::Owned(o) => true,
        }
    }

    open spec fn syn_text(&self, const_like: bool) -> Seq<char> {
        match self {
            Cow::Borrowed(b) => cow_text(true, str_debug(b@)),
            Cow::Owned(o) => if const_like {
                cow_text(true, str_debug(o@))
            } else {
                cow_text(false, string_from_text(str_debug(o@)))
            },
        }
    }

    fn fmt(&self, f: &mut String, const_like: bool) {
        match self {
            Cow::Borrowed(b) => write_cow(f, true, b, const_like),
            Cow::Owned(o) => if const_like {
                write_cow(f, true, &o.as_str(), true)
            } else {
                write_cow(f, false, o, false)
            },
        }
    }
}

/// A `Cow` of a slice, whose owned form is a `Vec`.
impl<'a, T: SynDebug + Clone> SynDebug for Cow<'a, [T]> {
    open spec fn syn_renderable(&self, const_like: bool) -> bool {
        match self {
            Cow::Borrowed(b) => all_renderable(b@, const_like),
            Cow::Owned(o) => all_renderable(o@, const_like),
        }
    }

    open spec fn syn_text(&self, const_like: bool) -> Seq<char> {
        match self {
            Cow::Borrowed(b) => cow_text(true, "&"@ + list_text(b@, const_like)),
            Cow::Owned(o) => if const_like {
                cow_text(true, "&"@ + list_text(o@, true))
            } else {
                cow_text(false, "vec!"@ + list_text(o@, false))
            },
        }
    }

    fn fmt(&self, f: &mut String, const_like: bool) {
        match self {
            Cow::Borrowed(b) => write_cow(f, true, b, const_like),
            Cow::Owned(o) => if const_like {
                write_cow(f, true, &o.as_slice(), true)
            } else {
                write_cow(f, false, o, false)
            },
        }
    }
}

/// serde's placeholder for a value that was read and thrown away.
#[verifier::external_type_specification]
#[verifier::external_body]
pub struct ExIgnoredAny(serde::de::IgnoredAny);

impl SynDebug for serde::de::IgnoredAny {
    open spec fn syn_renderable(&self, const_like: bool) -> bool {
        true
    }

    open spec fn syn_text(&self, const_like: bool) -> Seq<char> {
        "IgnoredAny"@
    }

    fn fmt(&self, f: &mut String, const_like: bool) {
        f.append("IgnoredAny");
    }
}

/// The text of a non-zero integer whose value renders as `inner`:
/// `NonZero::new( inner, ).unwrap()`.
pub open spec fn nonzero_text(inner: Seq<char>) -> Seq<char> {
    "NonZero::new( "@ + inner + ", ).unwrap()"@
}

/// Appends the rendering of a `NonZero` whose value (what `NonZero::get`
/// returns) is `value`.
pub fn write_nonzero<T: SynDebug>(f: &mut String, value: &T, const_like: bool)
    requires
        value.syn_renderable(const_like),
    ensures
        final(f)@ == old(f)@ + nonzero_text(value.syn_text(const_like)),
{
    f.append("NonZero::new( ");
    value.fmt(f, const_like);
    f.append(", ).unwrap()");
    assert(f@ =~= old(f)@ + nonzero_text(value.syn_text(const_like)));
}

/// Law: values that need the heap (`Vec`, `String`, `Box`) have no
/// constant rendering.
pub proof fn lemma_heap_values_not_const<T: SynDebug, U: SynDebug + ?Sized>(
    v: Vec<T>,
    s: String,
    b: Box<U>,
)
    ensures
        !v.syn_renderable(true),
        !s.syn_renderable(true),
        !b.syn_renderable(true),
{
}

/// Law: in constant mode a `Cow` is always written as borrowed, whichever
/// way it holds its value, and both ways give the same text.
pub proof fn lemma_cow_const_is_borrowed<'a, T: SynDebug + Clone>(value: &'a T)
    ensures
        Cow::<'a, T>::Borrowed(value).syn_text(true) == Cow::<'a, T>::Owned(*value).syn_text(true),
        Cow::<'a, T>::Borrowed(value).syn_renderable(true) == Cow::<'a, T>::Owned(
            *value,
        ).syn_renderable(true),
        Cow::<'a, T>::Borrowed(value).syn_text(true) == cow_text(true, "&"@ + value.syn_text(true)),
{
}

/// Law: in constant mode a `Cow` of a string slice is written as borrowed,
/// whichever way it holds its characters.
pub proof fn lemma_cow_str_const_is_borrowed<'a>(b: &'a str, o: String)
    requires
        b@ == o@,
    ensures
        Cow::<'a, str>::Borrowed(b).syn_text(true) == Cow::<'a, str>::Owned(o).syn_text(true),
        Cow::<'a, str>::Borrowed(b).syn_text(true) == cow_text(true, str_debug(b@)),
{
}

/// Law: in constant mode a `Cow` of a slice is written as a borrowed slice,
/// whichever way it holds its items.
pub proof fn lemma_cow_slice_const_is_borrowed<'a, T: SynDebug + Clone>(b: &'a [T], o: Vec<T>)
    requires
        b@ == o@,
    ensures
        Cow::<'a, [T]>::Borrowed(b).syn_text(true) == Cow::<'a, [T]>::Owned(o).syn_text(true),
        Cow::<'a, [T]>::Borrowed(b).syn_text(true) == cow_text(true, "&"@ + list_text(b@, true)),
{
}

/// Law: a vector is written as `vec!` before the rendering of a slice with
/// the same items.
pub proof fn lemma_vec_is_slice_text<T: SynDebug>(v: Vec<T>, s: &[T])
    requires
        v@ == s@,
    ensures
        v.syn_text(false) == "vec!"@ + s.syn_text(false),
        v.syn_renderable(false) == s.syn_renderable(false),
{
}

/// Law: an empty slice is written `[ ]`, and a slice with one more item at
/// the end is written with that item's rendering and a comma just before the
/// closing bracket, in either mode; an array is written as the slice of its
/// items.
pub proof fn lemma_slice_push<T: SynDebug, const N: usize>(
    s: &[T],
    t: &[T],
    x: T,
    a: [T; N],
    const_like: bool,
)
    requires
        t@ == s@.push(x),
    ensures
        s@.len() == 0 ==> s.syn_text(const_like) == "[ ]"@,
        t.syn_text(const_like) == s.syn_text(const_like).drop_last() + x.syn_text(const_like) + ", "@
            + "]"@,
        t.syn_renderable(const_like) == (s.syn_renderable(const_like) && x.syn_renderable(
            const_like,
        )),
        a@ == t@ ==> a.syn_text(const_like) == t.syn_text(const_like),
{
    lemma_list_text_push(s@, x, const_like);
    if s@.len() == 0 {
        assert(s@ =~= Seq::<T>::empty());
    }
    assert(t@.last() == x);
    assert forall|i: int| 0 <= i < s@.len() implies t@[i] == s@[i] by {}
    if t.syn_renderable(const_like) {
        assert(t@[s@.len() as int].syn_renderable(const_like));
        assert forall|i: int| 0 <= i < s@.len() implies #[trigger] s@[i].syn_renderable(
            const_like,
        ) by {
            assert(t@[i].syn_renderable(const_like));
        }
    }
    if s.syn_renderable(const_like) && x.syn_renderable(const_like) {
        assert forall|i: int| 0 <= i < t@.len() implies #[trigger] t@[i].syn_renderable(
            const_like,
        ) by {
            if i < s@.len() {
                assert(s@[i].syn_renderable(const_like));
            }
        }
    }
}

/// Law: `Ok` and `Err` are written as their own variant whatever the mode,
/// each around the rendering of what it holds in that same mode, so an `Ok`
/// and an `Err` are never written alike.
pub proof fn lemma_result_variants<T: SynDebug, E: SynDebug>(x: T, e: E, c: bool, d: bool)
    ensures
        Result::<T, E>::Ok(x).syn_text(c) == "Result::Ok( "@ + x.syn_text(c) + ", )"@,
        Result::<T, E>::Err(e).syn_text(c) == "Result::Err( "@ + e.syn_text(c) + ", )"@,
        Result::<T, E>::Ok(x).syn_renderable(c) == x.syn_renderable(c),
        Result::<T, E>::Err(e).syn_renderable(c) == e.syn_renderable(c),
        Result::<T, E>::Ok(x).syn_text(c) != Result::<T, E>::Err(e).syn_text(d),
{
    reveal_strlit("Result::Ok( ");
    reveal_strlit("Result::Err( ");
    let ok = Result::<T, E>::Ok(x).syn_text(c);
    let err = Result::<T, E>::Err(e).syn_text(d);
    assert(ok[8] == 'O');
    assert(err[8] == 'E');
}

/// Law: `Some` and `None` are written as their own variant whatever the
/// mode, `Some` around the rendering of what it holds in that same mode, so
/// a `Some` and a `None` are never written alike.
pub proof fn lemma_option_variants<T: SynDebug>(x: T, c: bool, d: bool)
    ensures
        Option::<T>::Some(x).syn_text(c) == "Option::Some( "@ + x.syn_text(c) + ", )"@,
        Option::<T>::None.syn_text(c) == "Option::None"@,
        Option::<T>::Some(x).syn_renderable(c) == x.syn_renderable(c),
        Option::<T>::None.syn_renderable(c),
        Option::<T>::Some(x).syn_text(c) != Option::<T>::None.syn_text(d),
{
    reveal_strlit("Option::Some( ");
    reveal_strlit("Option::None");
    let some = Option::<T>::Some(x).syn_text(c);
    let none = Option::<T>::None.syn_text(d);
    assert(some[8] == 'S');
    assert(none[8] == 'N');
}

/// Law: `true` and `false` are written as those words, in either mode, and
/// never alike.
pub proof fn lemma_bool_words(c: bool, d: bool)
    ensures
        true.syn_text(c) == "true"@,
        false.syn_text(c) == "false"@,
        true.syn_text(c) != false.syn_text(d),
{
    reveal_strlit("true");
    reveal_strlit("false");
    assert(true.syn_text(c).len() != false.syn_text(d).len());
}

/// Law: a shared reference is written `&` and a mutable one `&mut ` before
/// the referent's rendering in the same mode; a box is written
/// `Box::new( .., )` around the referent's ordinary rendering, and only in
/// ordinary mode.
pub proof fn lemma_pointers<T: SynDebug>(x: &T, m: &mut T, b: Box<T>, c: bool)
    ensures
        <&T as SynDebug>::syn_text(&x, c) == "&"@ + x.syn_text(c),
        <&T as SynDebug>::syn_renderable(&x, c) == x.syn_renderable(c),
        <&mut T as SynDebug>::syn_text(&old(m), c) == "&mut "@ + (*old(m)).syn_text(c),
        <&mut T as SynDebug>::syn_renderable(&old(m), c) == (*old(m)).syn_renderable(c),
        b.syn_text(c) == "Box::new( "@ + (*b).syn_text(false) + ", )"@,
        b.syn_renderable(c) == (!c && (*b).syn_renderable(false)),
{
}

/// Law: in ordinary mode a `Cow` is written as the variant it is, around the
/// rendering of a reference to the borrowed value or of the owned value.
pub proof fn lemma_cow_ordinary<'a, T: SynDebug + Clone>(value: &'a T, owned: T)
    ensures
        Cow::<'a, T>::Borrowed(value).syn_text(false) == "Cow::Borrowed( "@ + "&"@ + value.syn_text(
            false,
        ) + ", )"@,
        Cow::<'a, T>::Owned(owned).syn_text(false) == "Cow::Owned( "@ + owned.syn_text(false)
            + ", )"@,
{
}

/// Law: an owned string is written `String::from( .., )` around the quoted
/// text of its characters, and only in ordinary mode; a string slice is
/// written as that quoted text alone, in either mode.
pub proof fn lemma_strings(s: &str, o: String, c: bool)
    ensures
        o.syn_text(false) == "String::from( "@ + str_debug(o@) + ", )"@,
        o.syn_renderable(c) == !c,
        s.syn_text(c) == str_debug(s@),
        s.syn_renderable(c),
{
}

/// Law: in ordinary mode a `Cow` of a string slice or of a slice is written
/// as the variant it is: a borrowed one around the rendering of the borrowed
/// reference, an owned one around the rendering of the `String` or `Vec`.
pub proof fn lemma_cow_unsized_ordinary<'a, T: SynDebug + Clone>(
    bs: &'a str,
    os: String,
    bl: &'a [T],
    ol: Vec<T>,
)
    ensures
        Cow::<'a, str>::Borrowed(bs).syn_text(false) == "Cow::Borrowed( "@ + bs.syn_text(false)
            + ", )"@,
        Cow::<'a, str>::Owned(os).syn_text(false) == "Cow::Owned( "@ + os.syn_text(false) + ", )"@,
        Cow::<'a, [T]>::Borrowed(bl).syn_text(false) == "Cow::Borrowed( "@ + <&[T] as SynDebug>::syn_text(
            &bl,
            false,
        ) + ", )"@,
        Cow::<'a, [T]>::Owned(ol).syn_text(false) == "Cow::Owned( "@ + ol.syn_text(false) + ", )"@,
{
}

/// Law: the unit value is written `()` and serde's `IgnoredAny` as its
/// name, in either mode.
pub proof fn lemma_unit_and_ignored(u: (), i: serde::de::IgnoredAny, c: bool)
    ensures
        u.syn_text(c) == "()"@,
        u.syn_renderable(c),
        i.syn_text(c) == "IgnoredAny"@,
        i.syn_renderable(c),
{
}

} // verus!
