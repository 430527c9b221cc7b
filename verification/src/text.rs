//! Character-level building blocks: decimal integers, string quoting, and
//! the comma-terminated lists that every compound rendering uses.
use vstd::prelude::*;
use vstd::string::StringExecFns;

use crate::SynDebug;

verus! {

// ---------------------------------------------------------------------------
// Decimal integers
// ---------------------------------------------------------------------------

/// The ASCII digit for `d` (meaningful for `d < 10`).
pub open spec fn digit_char(d: nat) -> char {
    if d == 0 {
        '0'
    } else if d == 1 {
        '1'
    } else if d == 2 {
        '2'
    } else if d == 3 {
        '3'
    } else if d == 4 {
        '4'
    } else if d == 5 {
        '5'
    } else if d == 6 {
        '6'
    } else if d == 7 {
        '7'
    } else if d == 8 {
        '8'
    } else {
        '9'
    }
}

/// The value of an ASCII digit, or `None` for any other character.
pub open spec fn digit_value(c: char) -> Option<nat> {
    if c == '0' {
        Some(0)
    } else if c == '1' {
        Some(1)
    } else if c == '2' {
        Some(2)
    } else if c == '3' {
        Some(3)
    } else if c == '4' {
        Some(4)
    } else if c == '5' {
        Some(5)
    } else if c == '6' {
        Some(6)
    } else if c == '7' {
        Some(7)
    } else if c == '8' {
        Some(8)
    } else if c == '9' {
        Some(9)
    } else {
        None
    }
}

/// The shortest decimal spelling of `n`, without sign or leading zeros.
pub open spec fn decimal(n: nat) -> Seq<char>
    decreases n,
{
    if n < 10 {
        seq![digit_char(n)]
    } else {
        decimal(n / 10).push(digit_char(n % 10))
    }
}

/// How `Debug` spells an integer: `-` before the magnitude when negative.
pub open spec fn int_text(v: int) -> Seq<char> {
    if v < 0 {
        seq!['-'] + decimal((-v) as nat)
    } else {
        decimal(v as nat)
    }
}

/// Reads a non-empty run of digits as a natural number; `None` when the
/// text is empty or holds anything but digits.
pub open spec fn read_decimal(s: Seq<char>) -> Option<nat>
    decreases s.len(),
{
    if s.len() == 0 {
        None
    } else if s.len() == 1 {
        digit_value(s[0])
    } else {
        match (read_decimal(s.drop_last()), digit_value(s.last())) {
            (Some(high), Some(low)) => Some(high * 10 + low),
            _ => None,
        }
    }
}

/// Reads an optionally negated decimal integer.
pub open spec fn read_int(s: Seq<char>) -> Option<int> {
    if s.len() > 0 && s[0] == '-' {
        match read_decimal(s.drop_first()) {
            Some(m) => Some(-m),
            None => None,
        }
    } else {
        match read_decimal(s) {
            Some(m) => Some(m as int),
            None => None,
        }
    }
}

/// Every character of the decimal spelling is a digit, and it is never empty.
pub proof fn lemma_decimal_digits(n: nat)
    ensures
        decimal(n).len() >= 1,
        forall|i: int| 0 <= i < decimal(n).len() ==> #[trigger] digit_value(decimal(n)[i]) is Some,
    decreases n,
{
    if n >= 10 {
        lemma_decimal_digits(n / 10);
    }
}

/// Reading back the decimal spelling of `n` gives `n`.
pub proof fn lemma_read_decimal(n: nat)
    ensures
        read_decimal(decimal(n)) == Some(n),
    decreases n,
{
    if n >= 10 {
        lemma_read_decimal(n / 10);
        lemma_decimal_digits(n / 10);
        let s = decimal(n);
        assert(s.drop_last() =~= decimal(n / 10));
        assert(n / 10 * 10 + n % 10 == n);
    }
}

/// Law: reading back the spelling of any integer gives that integer, so
/// distinct integers are never spelled alike.
pub proof fn lemma_int_text_round_trip(v: int)
    ensures
        read_int(int_text(v)) == Some(v),
{
    if v < 0 {
        lemma_read_decimal((-v) as nat);
        assert((seq!['-'] + decimal((-v) as nat)).drop_first() =~= decimal((-v) as nat));
    } else {
        lemma_read_decimal(v as nat);
        lemma_decimal_digits(v as nat);
        assert(digit_value(decimal(v as nat)[0]) is Some);
    }
}

/// Law: two integers are spelled alike only when they are equal.
pub proof fn lemma_int_text_injective(a: int, b: int)
    requires
        int_text(a) == int_text(b),
    ensures
        a == b,
{
    lemma_int_text_round_trip(a);
    lemma_int_text_round_trip(b);
}

/// The one-character string for the digit `d`.
fn digit_str(d: u128) -> (s: &'static str)
    requires
        d < 10,
    ensures
        s@ == seq![digit_char(d as nat)],
{
    if d == 0 {
        proof { reveal_strlit("0"); }
        "0"
    } else if d == 1 {
        proof { reveal_strlit("1"); }
        "1"
    } else if d == 2 {
        proof { reveal_strlit("2"); }
        "2"
    } else if d == 3 {
        proof { reveal_strlit("3"); }
        "3"
    } else if d == 4 {
        proof { reveal_strlit("4"); }
        "4"
    } else if d == 5 {
        proof { reveal_strlit("5"); }
        "5"
    } else if d == 6 {
        proof { reveal_strlit("6"); }
        "6"
    } else if d == 7 {
        proof { reveal_strlit("7"); }
        "7"
    } else if d == 8 {
        proof { reveal_strlit("8"); }
        "8"
    } else {
        proof { reveal_strlit("9"); }
        "9"
    }
}

/// Appends the decimal spelling of `n`.
pub fn write_decimal(f: &mut String, n: u128)
    ensures
        final(f)@ == old(f)@ + decimal(n as nat),
    decreases n,
{
    if n >= 10 {
        write_decimal(f, n / 10);
    }
    f.append(digit_str(n % 10));
    assert(f@ =~= old(f)@ + decimal(n as nat));
}

/// Appends the spelling of a signed integer.
pub fn write_int(f: &mut String, v: i128)
    ensures
        final(f)@ == old(f)@ + int_text(v as int),
{
    if v < 0 {
        f.append("-");
        proof {
            reveal_strlit("-");
        }
        let magnitude: u128 = (-(v + 1)) as u128 + 1;
        write_decimal(f, magnitude);
        assert(f@ =~= old(f)@ + int_text(v as int));
    } else {
        write_decimal(f, v as u128);
    }
}

/// Appends the spelling of an unsigned integer.
pub fn write_uint(f: &mut String, v: u128)
    ensures
        final(f)@ == old(f)@ + int_text(v as int),
{
    write_decimal(f, v);
}

// ---------------------------------------------------------------------------
// Strings
// ---------------------------------------------------------------------------

/// What `Debug` writes for a string with the characters `s`: the string in
/// double quotes, with the characters that need it escaped.
pub uninterp spec fn str_debug(s: Seq<char>) -> Seq<char>;

/// std's `Debug` for `str`, as a `String`. The escaping rules (which
/// characters are escaped, and how) are std's own and are not restated
/// here: the result is only named, as a function of the characters.
#[verifier::external_body]
pub(crate) fn quote_str(s: &str) -> (r: String)
    ensures
        r@ == str_debug(s@),
{
    format!("{:?}", s)
}

// ---------------------------------------------------------------------------
// Lists
// ---------------------------------------------------------------------------

/// Each item's rendering followed by `", "`, one after the other.
pub open spec fn items_text<T: SynDebug>(items: Seq<T>, const_like: bool) -> Seq<char>
    decreases items.len(),
{
    if items.len() == 0 {
        Seq::empty()
    } else {
        items_text(items.drop_last(), const_like) + items.last().syn_text(const_like) + ", "@
    }
}

/// Every item can be rendered in the given mode.
pub open spec fn all_renderable<T: SynDebug>(items: Seq<T>, const_like: bool) -> bool {
    forall|i: int| 0 <= i < items.len() ==> #[trigger] items[i].syn_renderable(const_like)
}

/// A bracketed list: `[ a, b, ]`, and `[ ]` when empty.
pub open spec fn list_text<T: SynDebug>(items: Seq<T>, const_like: bool) -> Seq<char> {
    "[ "@ + items_text(items, const_like) + "]"@
}

/// Appends `items_text` of the slice.
pub fn write_items<T: SynDebug>(f: &mut String, items: &[T], const_like: bool)
    requires
        all_renderable(items@, const_like),
    ensures
        final(f)@ == old(f)@ + items_text(items@, const_like),
{
    let ghost start = f@;
    let mut i: usize = 0;
    while i < items.len()
        invariant
            0 <= i <= items@.len(),
            all_renderable(items@, const_like),
            f@ == start + items_text(items@.take(i as int), const_like),
        decreases items@.len() - i,
    {
        assert(items@[i as int].syn_renderable(const_like));
        items[i].fmt(f, const_like);
        f.append(", ");
        assert(items@.take(i + 1).drop_last() =~= items@.take(i as int));
        assert(f@ =~= start + items_text(items@.take(i + 1), const_like));
        i = i + 1;
    }
    assert(items@.take(items@.len() as int) =~= items@);
}

/// Appends `list_text` of the slice.
pub fn write_list<T: SynDebug>(f: &mut String, items: &[T], const_like: bool)
    requires
        all_renderable(items@, const_like),
    ensures
        final(f)@ == old(f)@ + list_text(items@, const_like),
{
    f.append("[ ");
    write_items(f, items, const_like);
    f.append("]");
    assert(f@ =~= old(f)@ + list_text(items@, const_like));
}

/// Law: the items of two lists written one after the other read as the
/// items of the joined list.
pub proof fn lemma_items_text_concat<T: SynDebug>(a: Seq<T>, b: Seq<T>, const_like: bool)
    ensures
        items_text(a + b, const_like) == items_text(a, const_like) + items_text(b, const_like),
    decreases b.len(),
{
    if b.len() == 0 {
        assert(a + b =~= a);
        assert(items_text(a, const_like) + items_text(b, const_like) =~= items_text(a, const_like));
    } else {
        lemma_items_text_concat(a, b.drop_last(), const_like);
        assert((a + b).drop_last() =~= a + b.drop_last());
        assert((a + b).last() == b.last());
        assert(items_text(a + b, const_like) =~= items_text(a, const_like) + items_text(b, const_like));
    }
}

/// Law: a list is renderable exactly when each of two parts that make it up is.
pub proof fn lemma_all_renderable_concat<T: SynDebug>(a: Seq<T>, b: Seq<T>, const_like: bool)
    ensures
        all_renderable(a + b, const_like) == (all_renderable(a, const_like) && all_renderable(
            b,
            const_like,
        )),
{
    if all_renderable(a + b, const_like) {
        assert forall|i: int| 0 <= i < b.len() implies #[trigger] b[i].syn_renderable(const_like) by {
            assert((a + b)[a.len() + i] == b[i]);
        }
        assert forall|i: int| 0 <= i < a.len() implies #[trigger] a[i].syn_renderable(const_like) by {
            assert((a + b)[i] == a[i]);
        }
    }
    if all_renderable(a, const_like) && all_renderable(b, const_like) {
        assert forall|i: int| 0 <= i < (a + b).len() implies #[trigger] (a + b)[i].syn_renderable(
            const_like,
        ) by {
            if i < a.len() {
                assert((a + b)[i] == a[i]);
            } else {
                assert((a + b)[i] == b[i - a.len()]);
            }
        }
    }
}

/// Law: the empty list is written `[ ]`, and adding an item at the end of a
/// list writes that item's rendering and a comma just before the closing
/// bracket, whatever the length. Together these fix the text of every list.
pub proof fn lemma_list_text_push<T: SynDebug>(items: Seq<T>, x: T, const_like: bool)
    ensures
        list_text(Seq::<T>::empty(), const_like) == "[ ]"@,
        list_text(items.push(x), const_like) == list_text(items, const_like).drop_last()
            + x.syn_text(const_like) + ", "@ + "]"@,
        list_text(items.push(x), const_like).len() == list_text(items, const_like).len()
            + x.syn_text(const_like).len() + 2,
{
    reveal_strlit("[ ");
    reveal_strlit("]");
    reveal_strlit("[ ]");
    reveal_strlit(", ");
    assert(list_text(Seq::<T>::empty(), const_like) =~= "[ ]"@);
    assert(items.push(x).drop_last() =~= items);
    let before = "[ "@ + items_text(items, const_like);
    assert(list_text(items, const_like) == before + "]"@);
    assert((before + "]"@).drop_last() =~= before);
    assert(list_text(items.push(x), const_like) =~= before + x.syn_text(const_like) + ", "@ + "]"@);
}

} // verus!
