//! The shape in which a user's struct or enum is written, field by field.
//!
//! A struct `S { a, b }` is written `S { a : x, b : y, }`, a tuple struct
//! `S ( x, y, )`, a unit struct `S`; an enum's variant is written the same
//! way after the path `E::V`. An implementation of `SynDebug` for such a type
//! writes the path, then each field through these functions.
use vstd::prelude::*;
use vstd::string::StringExecFns;

use crate::SynDebug;

verus! {

/// The path of an enum's variant: `E::V`.
pub open spec fn variant_path(item_name: Seq<char>, variant: Seq<char>) -> Seq<char> {
    item_name + "::"@ + variant
}

/// One named field: `name : value, `.
pub open spec fn named_field_text(name: Seq<char>, value: Seq<char>) -> Seq<char> {
    name + " : "@ + value + ", "@
}

/// One positional field: `value, `.
pub open spec fn unnamed_field_text(value: Seq<char>) -> Seq<char> {
    value + ", "@
}

/// The named fields, given as (name, rendered value) pairs, one after the other.
pub open spec fn named_fields_text(fields: Seq<(Seq<char>, Seq<char>)>) -> Seq<char>
    decreases fields.len(),
{
    if fields.len() == 0 {
        Seq::empty()
    } else {
        named_fields_text(fields.drop_last()) + named_field_text(
            fields.last().0,
            fields.last().1,
        )
    }
}

/// The positional fields, given as rendered values, one after the other.
pub open spec fn unnamed_fields_text(values: Seq<Seq<char>>) -> Seq<char>
    decreases values.len(),
{
    if values.len() == 0 {
        Seq::empty()
    } else {
        unnamed_fields_text(values.drop_last()) + unnamed_field_text(values.last())
    }
}

/// A record with named fields: `path { a : x, b : y, }`.
pub open spec fn named_record_text(path: Seq<char>, fields: Seq<(Seq<char>, Seq<char>)>) -> Seq<
    char,
> {
    path + " { "@ + named_fields_text(fields) + "}"@
}

/// A record with positional fields: `path ( x, y, )`.
pub open spec fn unnamed_record_text(path: Seq<char>, values: Seq<Seq<char>>) -> Seq<char> {
    path + " ( "@ + unnamed_fields_text(values) + ")"@
}

/// Appends the path of an enum's variant, `item_name::variant`.
pub fn write_variant_path(f: &mut String, item_name: &str, variant: &str)
    ensures
        final(f)@ == old(f)@ + variant_path(item_name@, variant@),
{
    f.append(item_name);
    f.append("::");
    f.append(variant);
    assert(f@ =~= old(f)@ + variant_path(item_name@, variant@));
}

/// Opens the named fields of a record whose path was just written: ` { `.
pub fn begin_named(f: &mut String)
    ensures
        final(f)@ == old(f)@ + " { "@,
{
    f.append(" { ");
}

/// Appends one named field, `name : value, `.
pub fn named_field<T: SynDebug + ?Sized>(f: &mut String, name: &str, value: &T, const_like: bool)
    requires
        value.syn_renderable(const_like),
    ensures
        final(f)@ == old(f)@ + named_field_text(name@, value.syn_text(const_like)),
{
    f.append(name);
    f.append(" : ");
    value.fmt(f, const_like);
    f.append(", ");
    assert(f@ =~= old(f)@ + named_field_text(name@, value.syn_text(const_like)));
}

/// Closes the named fields: `}`.
pub fn end_named(f: &mut String)
    ensures
        final(f)@ == old(f)@ + "}"@,
{
    f.append("}");
}

/// Opens the positional fields of a record whose path was just written: ` ( `.
pub fn begin_unnamed(f: &mut String)
    ensures
        final(f)@ == old(f)@ + " ( "@,
{
    f.append(" ( ");
}

/// Appends one positional field, `value, `.
pub fn unnamed_field<T: SynDebug + ?Sized>(f: &mut String, value: &T, const_like: bool)
    requires
        value.syn_renderable(const_like),
    ensures
        final(f)@ == old(f)@ + unnamed_field_text(value.syn_text(const_like)),
{
    value.fmt(f, const_like);
    f.append(", ");
}

/// Closes the positional fields: `)`.
pub fn end_unnamed(f: &mut String)
    ensures
        final(f)@ == old(f)@ + ")"@,
{
    f.append(")");
}

/// Law: writing a record's path, then `begin_named`, then `named_field` for
/// each field in turn, then `end_named`, writes `named_record_text`. The
/// first clause is one field's step, the second the closing step.
pub proof fn lemma_named_record_steps(
    path: Seq<char>,
    fields: Seq<(Seq<char>, Seq<char>)>,
    name: Seq<char>,
    value: Seq<char>,
)
    ensures
        path + " { "@ + named_fields_text(fields) + named_field_text(name, value) == path
            + " { "@ + named_fields_text(fields.push((name, value))),
        path + " { "@ + named_fields_text(fields) + "}"@ == named_record_text(path, fields),
        path + " { "@ == path + " { "@ + named_fields_text(Seq::empty()),
{
    assert(fields.push((name, value)).drop_last() =~= fields);
    assert(path + " { "@ + named_fields_text(fields) + named_field_text(name, value) =~= path
        + " { "@ + named_fields_text(fields.push((name, value))));
    assert(path + " { "@ =~= path + " { "@ + named_fields_text(Seq::<(Seq<char>, Seq<char>)>::empty()));
}

/// Law: writing a record's path, then `begin_unnamed`, then `unnamed_field`
/// for each field in turn, then `end_unnamed`, writes `unnamed_record_text`.
/// The first clause is one field's step, the second the closing step.
pub proof fn lemma_unnamed_record_steps(path: Seq<char>, values: Seq<Seq<char>>, value: Seq<char>)
    ensures
        path + " ( "@ + unnamed_fields_text(values) + unnamed_field_text(value) == path + " ( "@
            + unnamed_fields_text(values.push(value)),
        path + " ( "@ + unnamed_fields_text(values) + ")"@ == unnamed_record_text(path, values),
        path + " ( "@ == path + " ( "@ + unnamed_fields_text(Seq::empty()),
{
    assert(values.push(value).drop_last() =~= values);
    assert(path + " ( "@ + unnamed_fields_text(values) + unnamed_field_text(value) =~= path
        + " ( "@ + unnamed_fields_text(values.push(value)));
    assert(path + " ( "@ =~= path + " ( "@ + unnamed_fields_text(Seq::<Seq<char>>::empty()));
}

} // verus!
