use std::borrow::Cow;

use serde::de::IgnoredAny;
use syndebug::impls::{write_nonzero, write_string_from};
use syndebug::record::{
    begin_named, begin_unnamed, end_named, end_unnamed, named_field, unnamed_field,
    write_variant_path,
};
use syndebug::text::{write_decimal, write_int, write_uint};
use syndebug::{to_string, to_writer, DebugAsSyn, SynDebug};

fn render<T: SynDebug + ?Sized>(value: &T, const_like: bool) -> String {
    let mut s = String::new();
    value.fmt(&mut s, const_like);
    s
}

#[test]
fn unsigned_integers_carry_their_type() {
    assert_eq!(to_string(&0u8), "0u8");
    assert_eq!(to_string(&255u8), "255u8");
    assert_eq!(to_string(&934u16), "934u16");
    assert_eq!(to_string(&u32::MAX), "4294967295u32");
    assert_eq!(to_string(&u64::MAX), "18446744073709551615u64");
    assert_eq!(to_string(&u128::MAX), "340282366920938463463374607431768211455u128");
}

#[test]
fn signed_integers_carry_sign_and_type() {
    assert_eq!(to_string(&-7i8), "-7i8");
    assert_eq!(to_string(&i8::MIN), "-128i8");
    assert_eq!(to_string(&0i16), "0i16");
    assert_eq!(to_string(&i32::MAX), "2147483647i32");
    assert_eq!(to_string(&i64::MIN), "-9223372036854775808i64");
    assert_eq!(to_string(&i128::MIN), "-170141183460469231731687303715884105728i128");
}

#[test]
fn integer_spellings_match_debug() {
    for v in [-1000i64, -10, -9, -1, 0, 1, 9, 10, 99, 100, 101, 1234567] {
        let mut s = String::new();
        write_int(&mut s, v as i128);
        assert_eq!(s, format!("{:?}", v));
    }
    for v in [0u64, 7, 10, 19, 1000, 987654321] {
        let mut s = String::new();
        write_uint(&mut s, v as u128);
        assert_eq!(s, format!("{}", v));
        let mut d = String::from("x");
        write_decimal(&mut d, v as u128);
        assert_eq!(d, format!("x{}", v));
    }
}

#[test]
fn distinct_integers_render_differently() {
    assert_ne!(to_string(&5u8), to_string(&50u8));
    assert_ne!(to_string(&1i32), to_string(&-1i32));
    assert_ne!(to_string(&10u16), to_string(&1u16));
}

#[test]
fn integer_mode_does_not_matter() {
    assert_eq!(render(&42u32, true), render(&42u32, false));
}

#[test]
fn bool_and_unit() {
    assert_eq!(to_string(&true), "true");
    assert_eq!(to_string(&false), "false");
    assert_eq!(to_string(&()), "()");
    assert_eq!(render(&(), true), "()");
}

#[test]
fn tuples_list_each_element() {
    assert_eq!(to_string(&(1u8,)), "( 1u8, )");
    assert_eq!(
        to_string(&(Option::<u32>::None, Some(true))),
        "( Option::None, Option::Some( true, ), )"
    );
    assert_eq!(
        to_string(&(1u8, 2u8, 3u8, 4u8, 5u8, 6u8, 7u8, 8u8, 9u8, 10u8, 11u8, 12u8)),
        "( 1u8, 2u8, 3u8, 4u8, 5u8, 6u8, 7u8, 8u8, 9u8, 10u8, 11u8, 12u8, )"
    );
}

#[test]
fn slices_and_arrays() {
    let empty: [u8; 0] = [];
    assert_eq!(to_string(&empty), "[ ]");
    assert_eq!(to_string(&[1u8, 2, 3]), "[ 1u8, 2u8, 3u8, ]");
    let s: &[i16] = &[-1, 2];
    assert_eq!(to_string(s), "[ -1i16, 2i16, ]");
    assert_eq!(to_string(&s), "&[ -1i16, 2i16, ]");
    assert_eq!(render(&[true, false], true), "[ true, false, ]");
}

#[test]
fn vec_is_prefixed() {
    assert_eq!(to_string(&vec![1u8, 2]), "vec![ 1u8, 2u8, ]");
    assert_eq!(to_string(&Vec::<u8>::new()), "vec![ ]");
    assert_eq!(to_string(&vec![vec![true]]), "vec![ vec![ true, ], ]");
}

#[test]
fn strings_are_quoted_and_escaped() {
    assert_eq!(to_string(&"Hello!"), "\"Hello!\"");
    assert_eq!(to_string(&"a\"b\\c\n"), "\"a\\\"b\\\\c\\n\"");
    assert_eq!(to_string(&""), "\"\"");
    assert_eq!(render(&"x", true), "\"x\"");
    assert_eq!(to_string(&String::from("hi")), "String::from( \"hi\", )");
    assert_eq!(to_string(&String::from("a\tb")), "String::from( \"a\\tb\", )");
}

#[test]
fn string_from_takes_quoted_text() {
    let mut s = String::from("> ");
    write_string_from(&mut s, "\"q\"");
    assert_eq!(s, "> String::from( \"q\", )");
}

#[test]
fn references_and_boxes() {
    assert_eq!(to_string(&&3u8), "&3u8");
    assert_eq!(to_string(&&&3u8), "&&3u8");
    let mut x = 4u8;
    assert_eq!(to_string(&&mut x), "&mut 4u8");
    assert_eq!(to_string(&Box::new(5u8)), "Box::new( 5u8, )");
    let b: Box<[u8]> = vec![1u8].into_boxed_slice();
    assert_eq!(to_string(&b), "Box::new( [ 1u8, ], )");
    assert_eq!(render(&&[1u8], true), "&[ 1u8, ]");
}

#[test]
fn option_and_result() {
    assert_eq!(to_string(&Some(1u8)), "Option::Some( 1u8, )");
    assert_eq!(to_string(&Option::<u8>::None), "Option::None");
    assert_eq!(render(&Some(Some(false)), true), "Option::Some( Option::Some( false, ), )");
    let ok: Result<u8, bool> = Ok(2);
    let err: Result<u8, bool> = Err(true);
    assert_eq!(to_string(&ok), "Result::Ok( 2u8, )");
    assert_eq!(to_string(&err), "Result::Err( true, )");
}

#[test]
fn cow_of_sized_value() {
    let v = 7u8;
    let borrowed: Cow<u8> = Cow::Borrowed(&v);
    let owned: Cow<u8> = Cow::Owned(7);
    assert_eq!(render(&borrowed, false), "Cow::Borrowed( &7u8, )");
    assert_eq!(render(&owned, false), "Cow::Owned( 7u8, )");
    assert_eq!(render(&borrowed, true), "Cow::Borrowed( &7u8, )");
    assert_eq!(render(&owned, true), "Cow::Borrowed( &7u8, )");
}

#[test]
fn cow_of_str() {
    let borrowed: Cow<str> = Cow::Borrowed("ab");
    let owned: Cow<str> = Cow::Owned(String::from("ab"));
    assert_eq!(render(&borrowed, false), "Cow::Borrowed( \"ab\", )");
    assert_eq!(render(&owned, false), "Cow::Owned( String::from( \"ab\", ), )");
    assert_eq!(render(&borrowed, true), "Cow::Borrowed( \"ab\", )");
    assert_eq!(render(&owned, true), "Cow::Borrowed( \"ab\", )");
}

#[test]
fn cow_of_slice() {
    let items = [1u8, 2];
    let borrowed: Cow<[u8]> = Cow::Borrowed(&items);
    let owned: Cow<[u8]> = Cow::Owned(vec![1, 2]);
    assert_eq!(render(&borrowed, false), "Cow::Borrowed( &[ 1u8, 2u8, ], )");
    assert_eq!(render(&owned, false), "Cow::Owned( vec![ 1u8, 2u8, ], )");
    assert_eq!(render(&owned, true), "Cow::Borrowed( &[ 1u8, 2u8, ], )");
}

#[test]
fn ignored_any() {
    assert_eq!(to_string(&IgnoredAny), "IgnoredAny");
}

#[test]
fn nonzero_from_its_value() {
    let n = std::num::NonZero::new(9u16).unwrap();
    let mut s = String::new();
    write_nonzero(&mut s, &n.get(), false);
    assert_eq!(s, "NonZero::new( 9u16, ).unwrap()");
}

#[test]
fn debug_as_syn_uses_ordinary_rendering() {
    let wrapped = DebugAsSyn(Some(vec![1u8]));
    let mut s = String::new();
    wrapped.fmt(&mut s);
    assert_eq!(s, to_string(&Some(vec![1u8])));
    assert_eq!(s, "Option::Some( vec![ 1u8, ], )");
}

#[test]
fn to_writer_appends() {
    let mut s = String::from("let x = ");
    to_writer(&mut s, &(1u8, "a"));
    assert_eq!(s, "let x = ( 1u8, \"a\", )");
}

#[test]
fn record_helpers() {
    let mut s = String::new();
    s.push_str("P");
    begin_named(&mut s);
    named_field(&mut s, "x", &1i32, false);
    named_field(&mut s, "y", &"z", false);
    end_named(&mut s);
    assert_eq!(s, "P { x : 1i32, y : \"z\", }");

    let mut t = String::new();
    write_variant_path(&mut t, "Shape", "Pair");
    begin_unnamed(&mut t);
    unnamed_field(&mut t, &true, false);
    unnamed_field(&mut t, &(), false);
    end_unnamed(&mut t);
    assert_eq!(t, "Shape::Pair ( true, (), )");
}
