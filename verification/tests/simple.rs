use syndebug::record::{
    begin_named, begin_unnamed, end_named, end_unnamed, named_field, unnamed_field,
    write_variant_path,
};
use syndebug::{to_string, SynDebug};

pub struct A {
    b: u8,
    c: u16,
    d: D,
    e0: E,
    e1: E,
    e2: E,
}

pub struct D {
    f: (),
    g: (Option<u32>, Option<bool>),
}

pub enum E {
    H,
    I(&'static str),
    J { k: &'static [u8], l: [f32; 3] },
}

impl SynDebug for A {
    fn fmt(&self, f: &mut String, const_like: bool) {
        f.push_str("A");
        begin_named(f);
        named_field(f, "b", &self.b, const_like);
        named_field(f, "c", &self.c, const_like);
        named_field(f, "d", &self.d, const_like);
        named_field(f, "e0", &self.e0, const_like);
        named_field(f, "e1", &self.e1, const_like);
        named_field(f, "e2", &self.e2, const_like);
        end_named(f);
    }
}

impl SynDebug for D {
    fn fmt(&self, f: &mut String, const_like: bool) {
        f.push_str("D");
        begin_named(f);
        named_field(f, "f", &self.f, const_like);
        named_field(f, "g", &self.g, const_like);
        end_named(f);
    }
}

/// Floats have no rendering in the library; this one follows the same
/// rule as the integers: the `Debug` digits, then the type's name.
fn float_field(f: &mut String, name: &str, values: &[f32; 3]) {
    f.push_str(name);
    f.push_str(" : [ ");
    for v in values {
        f.push_str(&format!("{:?}f32", v));
        f.push_str(", ");
    }
    f.push_str("], ");
}

impl SynDebug for E {
    fn fmt(&self, f: &mut String, const_like: bool) {
        match self {
            E::H => {
                write_variant_path(f, "E", "H");
            }
            E::I(f0) => {
                write_variant_path(f, "E", "I");
                begin_unnamed(f);
                unnamed_field(f, f0, const_like);
                end_unnamed(f);
            }
            E::J { k, l } => {
                write_variant_path(f, "E", "J");
                begin_named(f);
                named_field(f, "k", k, const_like);
                float_field(f, "l", l);
                end_named(f);
            }
        }
    }
}

#[test]
fn simple_test() {
    let a = A {
        b: 123,
        c: 934,
        d: D {
            f: (),
            g: (None, Some(true)),
        },
        e0: E::H,
        e1: E::I("Hello!"),
        e2: E::J {
            k: &[1, 2, 3],
            l: [1.3, 943.456789, 4103.0],
        },
    };
    assert_eq!(
        &to_string(&a),
        "A { b : 123u8, c : 934u16, d : D { f : (), g : ( Option::None, Option::Some( true, ), ), }, \
         e0 : E::H, e1 : E::I ( \"Hello!\", ), \
         e2 : E::J { k : &[ 1u8, 2u8, 3u8, ], l : [ 1.3f32, 943.4568f32, 4103.0f32, ], }, }"
    );
}
