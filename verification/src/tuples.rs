//! Tuples of one to twelve elements: `( a, b, )`.
use vstd::prelude::*;
use vstd::string::StringExecFns;

use vstd::seq_lib::lemma_concat_associative;

use crate::record::{unnamed_field_text, unnamed_fields_text};
use crate::SynDebug;

verus! {

/// A tuple of one to twelve elements.
pub trait SynTuple: SynDebug {
    /// The number of elements.
    spec fn arity() -> nat;

    /// The rendering of the element at position `i` (counting from zero).
    spec fn element_text(&self, i: int, const_like: bool) -> Seq<char>;

    /// The renderings of all elements, first to last.
    open spec fn element_texts(&self, const_like: bool) -> Seq<Seq<char>> {
        Seq::new(Self::arity(), |i: int| self.element_text(i, const_like))
    }

    /// Law: a tuple is written `( `, then every element's rendering in order,
    /// each followed by `, `, then `)`.
    proof fn lemma_tuple_text(&self, const_like: bool)
        ensures
            self.syn_text(const_like) == "( "@ + unnamed_fields_text(self.element_texts(const_like))
                + ")"@,
    ;
}

/// Taking one more element of `parts` appends it and its comma.
proof fn lemma_parts_step(parts: Seq<Seq<char>>, k: int)
    requires
        0 < k <= parts.len(),
    ensures
        "( "@ + unnamed_fields_text(parts.take(k)) == "( "@ + unnamed_fields_text(parts.take(k - 1))
            + parts[k - 1] + ", "@,
{
    assert(parts.take(k).drop_last() =~= parts.take(k - 1));
    assert(unnamed_fields_text(parts.take(k)) == unnamed_fields_text(parts.take(k - 1))
        + unnamed_field_text(parts[k - 1]));
    lemma_concat_associative(unnamed_fields_text(parts.take(k - 1)), parts[k - 1], ", "@);
    lemma_concat_associative("( "@, unnamed_fields_text(parts.take(k - 1)), parts[k - 1] + ", "@);
    lemma_concat_associative(
        "( "@ + unnamed_fields_text(parts.take(k - 1)),
        parts[k - 1],
        ", "@,
    );
}

/// No elements taken: only the opening.
proof fn lemma_parts_start(parts: Seq<Seq<char>>)
    ensures
        "( "@ + unnamed_fields_text(parts.take(0)) == "( "@,
{
    assert("( "@ + unnamed_fields_text(parts.take(0)) =~= "( "@);
}

/// Appends one element of a tuple and the comma after it.
fn write_element<X: SynDebug>(f: &mut String, x: &X, const_like: bool)
    requires
        x.syn_renderable(const_like),
    ensures
        final(f)@ == old(f)@ + x.syn_text(const_like) + ", "@,
{
    x.fmt(f, const_like);
    f.append(", ");
}

/// Appending an element and its comma after what was written so far reads
/// as appending them to the text written so far.
proof fn lemma_append_element(base: Seq<char>, done: Seq<char>, element: Seq<char>)
    ensures
        base + done + element + ", "@ == base + (done + element + ", "@),
{
    lemma_concat_associative(base, done, element);
    lemma_concat_associative(base, done + element, ", "@);
}

impl<A, B, C, D, E, F, G, H, I, J, K, L> SynDebug for (A, B, C, D, E, F, G, H, I, J, K, L,)
where
    A: SynDebug,
    B: SynDebug,
    C: SynDebug,
    D: SynDebug,
    E: SynDebug,
    F: SynDebug,
    G: SynDebug,
    H: SynDebug,
    I: SynDebug,
    J: SynDebug,
    K: SynDebug,
    L: SynDebug,
{
    open spec fn syn_renderable(&self, const_like: bool) -> bool {
        &&& self.0.syn_renderable(const_like)
        &&& self.1.syn_renderable(const_like)
        &&& self.2.syn_renderable(const_like)
        &&& self.3.syn_renderable(const_like)
        &&& self.4.syn_renderable(const_like)
        &&& self.5.syn_renderable(const_like)
        &&& self.6.syn_renderable(const_like)
        &&& self.7.syn_renderable(const_like)
        &&& self.8.syn_renderable(const_like)
        &&& self.9.syn_renderable(const_like)
        &&& self.10.syn_renderable(const_like)
        &&& self.11.syn_renderable(const_like)
    }

    open spec fn syn_text(&self, const_like: bool) -> Seq<char> {
        "( "@
            + self.0.syn_text(const_like) + ", "@
            + self.1.syn_text(const_like) + ", "@
            + self.2.syn_text(const_like) + ", "@
            + self.3.syn_text(const_like) + ", "@
            + self.4.syn_text(const_like) + ", "@
            + self.5.syn_text(const_like) + ", "@
            + self.6.syn_text(const_like) + ", "@
            + self.7.syn_text(const_like) + ", "@
            + self.8.syn_text(const_like) + ", "@
            + self.9.syn_text(const_like) + ", "@
            + self.10.syn_text(const_like) + ", "@
            + self.11.syn_text(const_like) + ", "@
            + ")"@
    }

    fn fmt(&self, f: &mut String, const_like: bool) {
        let ghost base = f@;
        f.append("( ");
        let ghost done = "( "@;
        write_element(f, &self.0, const_like);
        proof {
            lemma_append_element(base, done, self.0.syn_text(const_like));
        }
        let ghost done = done + self.0.syn_text(const_like) + ", "@;
        write_element(f, &self.1, const_like);
        proof {
            lemma_append_element(base, done, self.1.syn_text(const_like));
        }
        let ghost done = done + self.1.syn_text(const_like) + ", "@;
        write_element(f, &self.2, const_like);
        proof {
            lemma_append_element(base, done, self.2.syn_text(const_like));
        }
        let ghost done = done + self.2.syn_text(const_like) + ", "@;
        write_element(f, &self.3, const_like);
        proof {
            lemma_append_element(base, done, self.3.syn_text(const_like));
        }
        let ghost done = done + self.3.syn_text(const_like) + ", "@;
        write_element(f, &self.4, const_like);
        proof {
            lemma_append_element(base, done, self.4.syn_text(const_like));
        }
        let ghost done = done + self.4.syn_text(const_like) + ", "@;
        write_element(f, &self.5, const_like);
        proof {
            lemma_append_element(base, done, self.5.syn_text(const_like));
        }
        let ghost done = done + self.5.syn_text(const_like) + ", "@;
        write_element(f, &self.6, const_like);
        proof {
            lemma_append_element(base, done, self.6.syn_text(const_like));
        }
        let ghost done = done + self.6.syn_text(const_like) + ", "@;
        write_element(f, &self.7, const_like);
        proof {
            lemma_append_element(base, done, self.7.syn_text(const_like));
        }
        let ghost done = done + self.7.syn_text(const_like) + ", "@;
        write_element(f, &self.8, const_like);
        proof {
            lemma_append_element(base, done, self.8.syn_text(const_like));
        }
        let ghost done = done + self.8.syn_text(const_like) + ", "@;
        write_element(f, &self.9, const_like);
        proof {
            lemma_append_element(base, done, self.9.syn_text(const_like));
        }
        let ghost done = done + self.9.syn_text(const_like) + ", "@;
        write_element(f, &self.10, const_like);
        proof {
            lemma_append_element(base, done, self.10.syn_text(const_like));
        }
        let ghost done = done + self.10.syn_text(const_like) + ", "@;
        write_element(f, &self.11, const_like);
        proof {
            lemma_append_element(base, done, self.11.syn_text(const_like));
        }
        let ghost done = done + self.11.syn_text(const_like) + ", "@;
        f.append(")");
        proof {
            lemma_concat_associative(base, done, ")"@);
        }
    }
}

impl<A, B, C, D, E, F, G, H, I, J, K, L> SynTuple for (A, B, C, D, E, F, G, H, I, J, K, L,)
where
    A: SynDebug,
    B: SynDebug,
    C: SynDebug,
    D: SynDebug,
    E: SynDebug,
    F: SynDebug,
    G: SynDebug,
    H: SynDebug,
    I: SynDebug,
    J: SynDebug,
    K: SynDebug,
    L: SynDebug,
{
    open spec fn arity() -> nat {
        12
    }

    open spec fn element_text(&self, i: int, const_like: bool) -> Seq<char> {
        if i == 0 {
            self.0.syn_text(const_like)
        } else if i == 1 {
            self.1.syn_text(const_like)
        } else if i == 2 {
            self.2.syn_text(const_like)
        } else if i == 3 {
            self.3.syn_text(const_like)
        } else if i == 4 {
            self.4.syn_text(const_like)
        } else if i == 5 {
            self.5.syn_text(const_like)
        } else if i == 6 {
            self.6.syn_text(const_like)
        } else if i == 7 {
            self.7.syn_text(const_like)
        } else if i == 8 {
            self.8.syn_text(const_like)
        } else if i == 9 {
            self.9.syn_text(const_like)
        } else if i == 10 {
            self.10.syn_text(const_like)
        } else {
            self.11.syn_text(const_like)
        }
    }

    proof fn lemma_tuple_text(&self, const_like: bool) {
        let parts = self.element_texts(const_like);
        lemma_parts_start(parts);
        lemma_parts_step(parts, 1);
        lemma_parts_step(parts, 2);
        lemma_parts_step(parts, 3);
        lemma_parts_step(parts, 4);
        lemma_parts_step(parts, 5);
        lemma_parts_step(parts, 6);
        lemma_parts_step(parts, 7);
        lemma_parts_step(parts, 8);
        lemma_parts_step(parts, 9);
        lemma_parts_step(parts, 10);
        lemma_parts_step(parts, 11);
        lemma_parts_step(parts, 12);
        assert(parts.take(12) =~= parts);
    }
}

impl<B, C, D, E, F, G, H, I, J, K, L> SynDebug for (B, C, D, E, F, G, H, I, J, K, L,)
where
    B: SynDebug,
    C: SynDebug,
    D: SynDebug,
    E: SynDebug,
    F: SynDebug,
    G: SynDebug,
    H: SynDebug,
    I: SynDebug,
    J: SynDebug,
    K: SynDebug,
    L: SynDebug,
{
    open spec fn syn_renderable(&self, const_like: bool) -> bool {
        &&& self.0.syn_renderable(const_like)
        &&& self.1.syn_renderable(const_like)
        &&& self.2.syn_renderable(const_like)
        &&& self.3.syn_renderable(const_like)
        &&& self.4.syn_renderable(const_like)
        &&& self.5.syn_renderable(const_like)
        &&& self.6.syn_renderable(const_like)
        &&& self.7.syn_renderable(const_like)
        &&& self.8.syn_renderable(const_like)
        &&& self.9.syn_renderable(const_like)
        &&& self.10.syn_renderable(const_like)
    }

    open spec fn syn_text(&self, const_like: bool) -> Seq<char> {
        "( "@
            + self.0.syn_text(const_like) + ", "@
            + self.1.syn_text(const_like) + ", "@
            + self.2.syn_text(const_like) + ", "@
            + self.3.syn_text(const_like) + ", "@
            + self.4.syn_text(const_like) + ", "@
            + self.5.syn_text(const_like) + ", "@
            + self.6.syn_text(const_like) + ", "@
            + self.7.syn_text(const_like) + ", "@
            + self.8.syn_text(const_like) + ", "@
            + self.9.syn_text(const_like) + ", "@
            + self.10.syn_text(const_like) + ", "@
            + ")"@
    }

    fn fmt(&self, f: &mut String, const_like: bool) {
        let ghost base = f@;
        f.append("( ");
        let ghost done = "( "@;
        write_element(f, &self.0, const_like);
        proof {
            lemma_append_element(base, done, self.0.syn_text(const_like));
        }
        let ghost done = done + self.0.syn_text(const_like) + ", "@;
        write_element(f, &self.1, const_like);
        proof {
            lemma_append_element(base, done, self.1.syn_text(const_like));
        }
        let ghost done = done + self.1.syn_text(const_like) + ", "@;
        write_element(f, &self.2, const_like);
        proof {
            lemma_append_element(base, done, self.2.syn_text(const_like));
        }
        let ghost done = done + self.2.syn_text(const_like) + ", "@;
        write_element(f, &self.3, const_like);
        proof {
            lemma_append_element(base, done, self.3.syn_text(const_like));
        }
        let ghost done = done + self.3.syn_text(const_like) + ", "@;
        write_element(f, &self.4, const_like);
        proof {
            lemma_append_element(base, done, self.4.syn_text(const_like));
        }
        let ghost done = done + self.4.syn_text(const_like) + ", "@;
        write_element(f, &self.5, const_like);
        proof {
            lemma_append_element(base, done, self.5.syn_text(const_like));
        }
        let ghost done = done + self.5.syn_text(const_like) + ", "@;
        write_element(f, &self.6, const_like);
        proof {
            lemma_append_element(base, done, self.6.syn_text(const_like));
        }
        let ghost done = done + self.6.syn_text(const_like) + ", "@;
        write_element(f, &self.7, const_like);
        proof {
            lemma_append_element(base, done, self.7.syn_text(const_like));
        }
        let ghost done = done + self.7.syn_text(const_like) + ", "@;
        write_element(f, &self.8, const_like);
        proof {
            lemma_append_element(base, done, self.8.syn_text(const_like));
        }
        let ghost done = done + self.8.syn_text(const_like) + ", "@;
        write_element(f, &self.9, const_like);
        proof {
            lemma_append_element(base, done, self.9.syn_text(const_like));
        }
        let ghost done = done + self.9.syn_text(const_like) + ", "@;
        write_element(f, &self.10, const_like);
        proof {
            lemma_append_element(base, done, self.10.syn_text(const_like));
        }
        let ghost done = done + self.10.syn_text(const_like) + ", "@;
        f.append(")");
        proof {
            lemma_concat_associative(base, done, ")"@);
        }
    }
}

impl<B, C, D, E, F, G, H, I, J, K, L> SynTuple for (B, C, D, E, F, G, H, I, J, K, L,)
where
    B: SynDebug,
    C: SynDebug,
    D: SynDebug,
    E: SynDebug,
    F: SynDebug,
    G: SynDebug,
    H: SynDebug,
    I: SynDebug,
    J: SynDebug,
    K: SynDebug,
    L: SynDebug,
{
    open spec fn arity() -> nat {
        11
    }

    open spec fn element_text(&self, i: int, const_like: bool) -> Seq<char> {
        if i == 0 {
            self.0.syn_text(const_like)
        } else if i == 1 {
            self.1.syn_text(const_like)
        } else if i == 2 {
            self.2.syn_text(const_like)
        } else if i == 3 {
            self.3.syn_text(const_like)
        } else if i == 4 {
            self.4.syn_text(const_like)
        } else if i == 5 {
            self.5.syn_text(const_like)
        } else if i == 6 {
            self.6.syn_text(const_like)
        } else if i == 7 {
            self.7.syn_text(const_like)
        } else if i == 8 {
            self.8.syn_text(const_like)
        } else if i == 9 {
            self.9.syn_text(const_like)
        } else {
            self.10.syn_text(const_like)
        }
    }

    proof fn lemma_tuple_text(&self, const_like: bool) {
        let parts = self.element_texts(const_like);
        lemma_parts_start(parts);
        lemma_parts_step(parts, 1);
        lemma_parts_step(parts, 2);
        lemma_parts_step(parts, 3);
        lemma_parts_step(parts, 4);
        lemma_parts_step(parts, 5);
        lemma_parts_step(parts, 6);
        lemma_parts_step(parts, 7);
        lemma_parts_step(parts, 8);
        lemma_parts_step(parts, 9);
        lemma_parts_step(parts, 10);
        lemma_parts_step(parts, 11);
        assert(parts.take(11) =~= parts);
    }
}

impl<C, D, E, F, G, H, I, J, K, L> SynDebug for (C, D, E, F, G, H, I, J, K, L,)
where
    C: SynDebug,
    D: SynDebug,
    E: SynDebug,
    F: SynDebug,
    G: SynDebug,
    H: SynDebug,
    I: SynDebug,
    J: SynDebug,
    K: SynDebug,
    L: SynDebug,
{
    open spec fn syn_renderable(&self, const_like: bool) -> bool {
        &&& self.0.syn_renderable(const_like)
        &&& self.1.syn_renderable(const_like)
        &&& self.2.syn_renderable(const_like)
        &&& self.3.syn_renderable(const_like)
        &&& self.4.syn_renderable(const_like)
        &&& self.5.syn_renderable(const_like)
        &&& self.6.syn_renderable(const_like)
        &&& self.7.syn_renderable(const_like)
        &&& self.8.syn_renderable(const_like)
        &&& self.9.syn_renderable(const_like)
    }

    open spec fn syn_text(&self, const_like: bool) -> Seq<char> {
        "( "@
            + self.0.syn_text(const_like) + ", "@
            + self.1.syn_text(const_like) + ", "@
            + self.2.syn_text(const_like) + ", "@
            + self.3.syn_text(const_like) + ", "@
            + self.4.syn_text(const_like) + ", "@
            + self.5.syn_text(const_like) + ", "@
            + self.6.syn_text(const_like) + ", "@
            + self.7.syn_text(const_like) + ", "@
            + self.8.syn_text(const_like) + ", "@
            + self.9.syn_text(const_like) + ", "@
            + ")"@
    }

    fn fmt(&self, f: &mut String, const_like: bool) {
        let ghost base = f@;
        f.append("( ");
        let ghost done = "( "@;
        write_element(f, &self.0, const_like);
        proof {
            lemma_append_element(base, done, self.0.syn_text(const_like));
        }
        let ghost done = done + self.0.syn_text(const_like) + ", "@;
        write_element(f, &self.1, const_like);
        proof {
            lemma_append_element(base, done, self.1.syn_text(const_like));
        }
        let ghost done = done + self.1.syn_text(const_like) + ", "@;
        write_element(f, &self.2, const_like);
        proof {
            lemma_append_element(base, done, self.2.syn_text(const_like));
        }
        let ghost done = done + self.2.syn_text(const_like) + ", "@;
        write_element(f, &self.3, const_like);
        proof {
            lemma_append_element(base, done, self.3.syn_text(const_like));
        }
        let ghost done = done + self.3.syn_text(const_like) + ", "@;
        write_element(f, &self.4, const_like);
        proof {
            lemma_append_element(base, done, self.4.syn_text(const_like));
        }
        let ghost done = done + self.4.syn_text(const_like) + ", "@;
        write_element(f, &self.5, const_like);
        proof {
            lemma_append_element(base, done, self.5.syn_text(const_like));
        }
        let ghost done = done + self.5.syn_text(const_like) + ", "@;
        write_element(f, &self.6, const_like);
        proof {
            lemma_append_element(base, done, self.6.syn_text(const_like));
        }
        let ghost done = done + self.6.syn_text(const_like) + ", "@;
        write_element(f, &self.7, const_like);
        proof {
            lemma_append_element(base, done, self.7.syn_text(const_like));
        }
        let ghost done = done + self.7.syn_text(const_like) + ", "@;
        write_element(f, &self.8, const_like);
        proof {
            lemma_append_element(base, done, self.8.syn_text(const_like));
        }
        let ghost done = done + self.8.syn_text(const_like) + ", "@;
        write_element(f, &self.9, const_like);
        proof {
            lemma_append_element(base, done, self.9.syn_text(const_like));
        }
        let ghost done = done + self.9.syn_text(const_like) + ", "@;
        f.append(")");
        proof {
            lemma_concat_associative(base, done, ")"@);
        }
    }
}

impl<C, D, E, F, G, H, I, J, K, L> SynTuple for (C, D, E, F, G, H, I, J, K, L,)
where
    C: SynDebug,
    D: SynDebug,
    E: SynDebug,
    F: SynDebug,
    G: SynDebug,
    H: SynDebug,
    I: SynDebug,
    J: SynDebug,
    K: SynDebug,
    L: SynDebug,
{
    open spec fn arity() -> nat {
        10
    }

    open spec fn element_text(&self, i: int, const_like: bool) -> Seq<char> {
        if i == 0 {
            self.0.syn_text(const_like)
        } else if i == 1 {
            self.1.syn_text(const_like)
        } else if i == 2 {
            self.2.syn_text(const_like)
        } else if i == 3 {
            self.3.syn_text(const_like)
        } else if i == 4 {
            self.4.syn_text(const_like)
        } else if i == 5 {
            self.5.syn_text(const_like)
        } else if i == 6 {
            self.6.syn_text(const_like)
        } else if i == 7 {
            self.7.syn_text(const_like)
        } else if i == 8 {
            self.8.syn_text(const_like)
        } else {
            self.9.syn_text(const_like)
        }
    }

    proof fn lemma_tuple_text(&self, const_like: bool) {
        let parts = self.element_texts(const_like);
        lemma_parts_start(parts);
        lemma_parts_step(parts, 1);
        lemma_parts_step(parts, 2);
        lemma_parts_step(parts, 3);
        lemma_parts_step(parts, 4);
        lemma_parts_step(parts, 5);
        lemma_parts_step(parts, 6);
        lemma_parts_step(parts, 7);
        lemma_parts_step(parts, 8);
        lemma_parts_step(parts, 9);
        lemma_parts_step(parts, 10);
        assert(parts.take(10) =~= parts);
    }
}

impl<D, E, F, G, H, I, J, K, L> SynDebug for (D, E, F, G, H, I, J, K, L,)
where
    D: SynDebug,
    E: SynDebug,
    F: SynDebug,
    G: SynDebug,
    H: SynDebug,
    I: SynDebug,
    J: SynDebug,
    K: SynDebug,
    L: SynDebug,
{
    open spec fn syn_renderable(&self, const_like: bool) -> bool {
        &&& self.0.syn_renderable(const_like)
        &&& self.1.syn_renderable(const_like)
        &&& self.2.syn_renderable(const_like)
        &&& self.3.syn_renderable(const_like)
        &&& self.4.syn_renderable(const_like)
        &&& self.5.syn_renderable(const_like)
        &&& self.6.syn_renderable(const_like)
        &&& self.7.syn_renderable(const_like)
        &&& self.8.syn_renderable(const_like)
    }

    open spec fn syn_text(&self, const_like: bool) -> Seq<char> {
        "( "@
            + self.0.syn_text(const_like) + ", "@
            + self.1.syn_text(const_like) + ", "@
            + self.2.syn_text(const_like) + ", "@
            + self.3.syn_text(const_like) + ", "@
            + self.4.syn_text(const_like) + ", "@
            + self.5.syn_text(const_like) + ", "@
            + self.6.syn_text(const_like) + ", "@
            + self.7.syn_text(const_like) + ", "@
            + self.8.syn_text(const_like) + ", "@
            + ")"@
    }

    fn fmt(&self, f: &mut String, const_like: bool) {
        let ghost base = f@;
        f.append("( ");
        let ghost done = "( "@;
        write_element(f, &self.0, const_like);
        proof {
            lemma_append_element(base, done, self.0.syn_text(const_like));
        }
        let ghost done = done + self.0.syn_text(const_like) + ", "@;
        write_element(f, &self.1, const_like);
        proof {
            lemma_append_element(base, done, self.1.syn_text(const_like));
        }
        let ghost done = done + self.1.syn_text(const_like) + ", "@;
        write_element(f, &self.2, const_like);
        proof {
            lemma_append_element(base, done, self.2.syn_text(const_like));
        }
        let ghost done = done + self.2.syn_text(const_like) + ", "@;
        write_element(f, &self.3, const_like);
        proof {
            lemma_append_element(base, done, self.3.syn_text(const_like));
        }
        let ghost done = done + self.3.syn_text(const_like) + ", "@;
        write_element(f, &self.4, const_like);
        proof {
            lemma_append_element(base, done, self.4.syn_text(const_like));
        }
        let ghost done = done + self.4.syn_text(const_like) + ", "@;
        write_element(f, &self.5, const_like);
        proof {
            lemma_append_element(base, done, self.5.syn_text(const_like));
        }
        let ghost done = done + self.5.syn_text(const_like) + ", "@;
        write_element(f, &self.6, const_like);
        proof {
            lemma_append_element(base, done, self.6.syn_text(const_like));
        }
        let ghost done = done + self.6.syn_text(const_like) + ", "@;
        write_element(f, &self.7, const_like);
        proof {
            lemma_append_element(base, done, self.7.syn_text(const_like));
        }
        let ghost done = done + self.7.syn_text(const_like) + ", "@;
        write_element(f, &self.8, const_like);
        proof {
            lemma_append_element(base, done, self.8.syn_text(const_like));
        }
        let ghost done = done + self.8.syn_text(const_like) + ", "@;
        f.append(")");
        proof {
            lemma_concat_associative(base, done, ")"@);
        }
    }
}

impl<D, E, F, G, H, I, J, K, L> SynTuple for (D, E, F, G, H, I, J, K, L,)
where
    D: SynDebug,
    E: SynDebug,
    F: SynDebug,
    G: SynDebug,
    H: SynDebug,
    I: SynDebug,
    J: SynDebug,
    K: SynDebug,
    L: SynDebug,
{
    open spec fn arity() -> nat {
        9
    }

    open spec fn element_text(&self, i: int, const_like: bool) -> Seq<char> {
        if i == 0 {
            self.0.syn_text(const_like)
        } else if i == 1 {
            self.1.syn_text(const_like)
        } else if i == 2 {
            self.2.syn_text(const_like)
        } else if i == 3 {
            self.3.syn_text(const_like)
        } else if i == 4 {
            self.4.syn_text(const_like)
        } else if i == 5 {
            self.5.syn_text(const_like)
        } else if i == 6 {
            self.6.syn_text(const_like)
        } else if i == 7 {
            self.7.syn_text(const_like)
        } else {
            self.8.syn_text(const_like)
        }
    }

    proof fn lemma_tuple_text(&self, const_like: bool) {
        let parts = self.element_texts(const_like);
        lemma_parts_start(parts);
        lemma_parts_step(parts, 1);
        lemma_parts_step(parts, 2);
        lemma_parts_step(parts, 3);
        lemma_parts_step(parts, 4);
        lemma_parts_step(parts, 5);
        lemma_parts_step(parts, 6);
        lemma_parts_step(parts, 7);
        lemma_parts_step(parts, 8);
        lemma_parts_step(parts, 9);
        assert(parts.take(9) =~= parts);
    }
}

impl<E, F, G, H, I, J, K, L> SynDebug for (E, F, G, H, I, J, K, L,)
where
    E: SynDebug,
    F: SynDebug,
    G: SynDebug,
    H: SynDebug,
    I: SynDebug,
    J: SynDebug,
    K: SynDebug,
    L: SynDebug,
{
    open spec fn syn_renderable(&self, const_like: bool) -> bool {
        &&& self.0.syn_renderable(const_like)
        &&& self.1.syn_renderable(const_like)
        &&& self.2.syn_renderable(const_like)
        &&& self.3.syn_renderable(const_like)
        &&& self.4.syn_renderable(const_like)
        &&& self.5.syn_renderable(const_like)
        &&& self.6.syn_renderable(const_like)
        &&& self.7.syn_renderable(const_like)
    }

    open spec fn syn_text(&self, const_like: bool) -> Seq<char> {
        "( "@
            + self.0.syn_text(const_like) + ", "@
            + self.1.syn_text(const_like) + ", "@
            + self.2.syn_text(const_like) + ", "@
            + self.3.syn_text(const_like) + ", "@
            + self.4.syn_text(const_like) + ", "@
            + self.5.syn_text(const_like) + ", "@
            + self.6.syn_text(const_like) + ", "@
            + self.7.syn_text(const_like) + ", "@
            + ")"@
    }

    fn fmt(&self, f: &mut String, const_like: bool) {
        let ghost base = f@;
        f.append("( ");
        let ghost done = "( "@;
        write_element(f, &self.0, const_like);
        proof {
            lemma_append_element(base, done, self.0.syn_text(const_like));
        }
        let ghost done = done + self.0.syn_text(const_like) + ", "@;
        write_element(f, &self.1, const_like);
        proof {
            lemma_append_element(base, done, self.1.syn_text(const_like));
        }
        let ghost done = done + self.1.syn_text(const_like) + ", "@;
        write_element(f, &self.2, const_like);
        proof {
            lemma_append_element(base, done, self.2.syn_text(const_like));
        }
        let ghost done = done + self.2.syn_text(const_like) + ", "@;
        write_element(f, &self.3, const_like);
        proof {
            lemma_append_element(base, done, self.3.syn_text(const_like));
        }
        let ghost done = done + self.3.syn_text(const_like) + ", "@;
        write_element(f, &self.4, const_like);
        proof {
            lemma_append_element(base, done, self.4.syn_text(const_like));
        }
        let ghost done = done + self.4.syn_text(const_like) + ", "@;
        write_element(f, &self.5, const_like);
        proof {
            lemma_append_element(base, done, self.5.syn_text(const_like));
        }
        let ghost done = done + self.5.syn_text(const_like) + ", "@;
        write_element(f, &self.6, const_like);
        proof {
            lemma_append_element(base, done, self.6.syn_text(const_like));
        }
        let ghost done = done + self.6.syn_text(const_like) + ", "@;
        write_element(f, &self.7, const_like);
        proof {
            lemma_append_element(base, done, self.7.syn_text(const_like));
        }
        let ghost done = done + self.7.syn_text(const_like) + ", "@;
        f.append(")");
        proof {
            lemma_concat_associative(base, done, ")"@);
        }
    }
}

impl<E, F, G, H, I, J, K, L> SynTuple for (E, F, G, H, I, J, K, L,)
where
    E: SynDebug,
    F: SynDebug,
    G: SynDebug,
    H: SynDebug,
    I: SynDebug,
    J: SynDebug,
    K: SynDebug,
    L: SynDebug,
{
    open spec fn arity() -> nat {
        8
    }

    open spec fn element_text(&self, i: int, const_like: bool) -> Seq<char> {
        if i == 0 {
            self.0.syn_text(const_like)
        } else if i == 1 {
            self.1.syn_text(const_like)
        } else if i == 2 {
            self.2.syn_text(const_like)
        } else if i == 3 {
            self.3.syn_text(const_like)
        } else if i == 4 {
            self.4.syn_text(const_like)
        } else if i == 5 {
            self.5.syn_text(const_like)
        } else if i == 6 {
            self.6.syn_text(const_like)
        } else {
            self.7.syn_text(const_like)
        }
    }

    proof fn lemma_tuple_text(&self, const_like: bool) {
        let parts = self.element_texts(const_like);
        lemma_parts_start(parts);
        lemma_parts_step(parts, 1);
        lemma_parts_step(parts, 2);
        lemma_parts_step(parts, 3);
        lemma_parts_step(parts, 4);
        lemma_parts_step(parts, 5);
        lemma_parts_step(parts, 6);
        lemma_parts_step(parts, 7);
        lemma_parts_step(parts, 8);
        assert(parts.take(8) =~= parts);
    }
}

impl<F, G, H, I, J, K, L> SynDebug for (F, G, H, I, J, K, L,)
where
    F: SynDebug,
    G: SynDebug,
    H: SynDebug,
    I: SynDebug,
    J: SynDebug,
    K: SynDebug,
    L: SynDebug,
{
    open spec fn syn_renderable(&self, const_like: bool) -> bool {
        &&& self.0.syn_renderable(const_like)
        &&& self.1.syn_renderable(const_like)
        &&& self.2.syn_renderable(const_like)
        &&& self.3.syn_renderable(const_like)
        &&& self.4.syn_renderable(const_like)
        &&& self.5.syn_renderable(const_like)
        &&& self.6.syn_renderable(const_like)
    }

    open spec fn syn_text(&self, const_like: bool) -> Seq<char> {
        "( "@
            + self.0.syn_text(const_like) + ", "@
            + self.1.syn_text(const_like) + ", "@
            + self.2.syn_text(const_like) + ", "@
            + self.3.syn_text(const_like) + ", "@
            + self.4.syn_text(const_like) + ", "@
            + self.5.syn_text(const_like) + ", "@
            + self.6.syn_text(const_like) + ", "@
            + ")"@
    }

    fn fmt(&self, f: &mut String, const_like: bool) {
        let ghost base = f@;
        f.append("( ");
        let ghost done = "( "@;
        write_element(f, &self.0, const_like);
        proof {
            lemma_append_element(base, done, self.0.syn_text(const_like));
        }
        let ghost done = done + self.0.syn_text(const_like) + ", "@;
        write_element(f, &self.1, const_like);
        proof {
            lemma_append_element(base, done, self.1.syn_text(const_like));
        }
        let ghost done = done + self.1.syn_text(const_like) + ", "@;
        write_element(f, &self.2, const_like);
        proof {
            lemma_append_element(base, done, self.2.syn_text(const_like));
        }
        let ghost done = done + self.2.syn_text(const_like) + ", "@;
        write_element(f, &self.3, const_like);
        proof {
            lemma_append_element(base, done, self.3.syn_text(const_like));
        }
        let ghost done = done + self.3.syn_text(const_like) + ", "@;
        write_element(f, &self.4, const_like);
        proof {
            lemma_append_element(base, done, self.4.syn_text(const_like));
        }
        let ghost done = done + self.4.syn_text(const_like) + ", "@;
        write_element(f, &self.5, const_like);
        proof {
            lemma_append_element(base, done, self.5.syn_text(const_like));
        }
        let ghost done = done + self.5.syn_text(const_like) + ", "@;
        write_element(f, &self.6, const_like);
        proof {
            lemma_append_element(base, done, self.6.syn_text(const_like));
        }
        let ghost done = done + self.6.syn_text(const_like) + ", "@;
        f.append(")");
        proof {
            lemma_concat_associative(base, done, ")"@);
        }
    }
}

impl<F, G, H, I, J, K, L> SynTuple for (F, G, H, I, J, K, L,)
where
    F: SynDebug,
    G: SynDebug,
    H: SynDebug,
    I: SynDebug,
    J: SynDebug,
    K: SynDebug,
    L: SynDebug,
{
    open spec fn arity() -> nat {
        7
    }

    open spec fn element_text(&self, i: int, const_like: bool) -> Seq<char> {
        if i == 0 {
            self.0.syn_text(const_like)
        } else if i == 1 {
            self.1.syn_text(const_like)
        } else if i == 2 {
            self.2.syn_text(const_like)
        } else if i == 3 {
            self.3.syn_text(const_like)
        } else if i == 4 {
            self.4.syn_text(const_like)
        } else if i == 5 {
            self.5.syn_text(const_like)
        } else {
            self.6.syn_text(const_like)
        }
    }

    proof fn lemma_tuple_text(&self, const_like: bool) {
        let parts = self.element_texts(const_like);
        lemma_parts_start(parts);
        lemma_parts_step(parts, 1);
        lemma_parts_step(parts, 2);
        lemma_parts_step(parts, 3);
        lemma_parts_step(parts, 4);
        lemma_parts_step(parts, 5);
        lemma_parts_step(parts, 6);
        lemma_parts_step(parts, 7);
        assert(parts.take(7) =~= parts);
    }
}

impl<G, H, I, J, K, L> SynDebug for (G, H, I, J, K, L,)
where
    G: SynDebug,
    H: SynDebug,
    I: SynDebug,
    J: SynDebug,
    K: SynDebug,
    L: SynDebug,
{
    open spec fn syn_renderable(&self, const_like: bool) -> bool {
        &&& self.0.syn_renderable(const_like)
        &&& self.1.syn_renderable(const_like)
        &&& self.2.syn_renderable(const_like)
        &&& self.3.syn_renderable(const_like)
        &&& self.4.syn_renderable(const_like)
        &&& self.5.syn_renderable(const_like)
    }

    open spec fn syn_text(&self, const_like: bool) -> Seq<char> {
        "( "@
            + self.0.syn_text(const_like) + ", "@
            + self.1.syn_text(const_like) + ", "@
            + self.2.syn_text(const_like) + ", "@
            + self.3.syn_text(const_like) + ", "@
            + self.4.syn_text(const_like) + ", "@
            + self.5.syn_text(const_like) + ", "@
            + ")"@
    }

    fn fmt(&self, f: &mut String, const_like: bool) {
        let ghost base = f@;
        f.append("( ");
        let ghost done = "( "@;
        write_element(f, &self.0, const_like);
        proof {
            lemma_append_element(base, done, self.0.syn_text(const_like));
        }
        let ghost done = done + self.0.syn_text(const_like) + ", "@;
        write_element(f, &self.1, const_like);
        proof {
            lemma_append_element(base, done, self.1.syn_text(const_like));
        }
        let ghost done = done + self.1.syn_text(const_like) + ", "@;
        write_element(f, &self.2, const_like);
        proof {
            lemma_append_element(base, done, self.2.syn_text(const_like));
        }
        let ghost done = done + self.2.syn_text(const_like) + ", "@;
        write_element(f, &self.3, const_like);
        proof {
            lemma_append_element(base, done, self.3.syn_text(const_like));
        }
        let ghost done = done + self.3.syn_text(const_like) + ", "@;
        write_element(f, &self.4, const_like);
        proof {
            lemma_append_element(base, done, self.4.syn_text(const_like));
        }
        let ghost done = done + self.4.syn_text(const_like) + ", "@;
        write_element(f, &self.5, const_like);
        proof {
            lemma_append_element(base, done, self.5.syn_text(const_like));
        }
        let ghost done = done + self.5.syn_text(const_like) + ", "@;
        f.append(")");
        proof {
            lemma_concat_associative(base, done, ")"@);
        }
    }
}

impl<G, H, I, J, K, L> SynTuple for (G, H, I, J, K, L,)
where
    G: SynDebug,
    H: SynDebug,
    I: SynDebug,
    J: SynDebug,
    K: SynDebug,
    L: SynDebug,
{
    open spec fn arity() -> nat {
        6
    }

    open spec fn element_text(&self, i: int, const_like: bool) -> Seq<char> {
        if i == 0 {
            self.0.syn_text(const_like)
        } else if i == 1 {
            self.1.syn_text(const_like)
        } else if i == 2 {
            self.2.syn_text(const_like)
        } else if i == 3 {
            self.3.syn_text(const_like)
        } else if i == 4 {
            self.4.syn_text(const_like)
        } else {
            self.5.syn_text(const_like)
        }
    }

    proof fn lemma_tuple_text(&self, const_like: bool) {
        let parts = self.element_texts(const_like);
        lemma_parts_start(parts);
        lemma_parts_step(parts, 1);
        lemma_parts_step(parts, 2);
        lemma_parts_step(parts, 3);
        lemma_parts_step(parts, 4);
        lemma_parts_step(parts, 5);
        lemma_parts_step(parts, 6);
        assert(parts.take(6) =~= parts);
    }
}

impl<H, I, J, K, L> SynDebug for (H, I, J, K, L,)
where
    H: SynDebug,
    I: SynDebug,
    J: SynDebug,
    K: SynDebug,
    L: SynDebug,
{
    open spec fn syn_renderable(&self, const_like: bool) -> bool {
        &&& self.0.syn_renderable(const_like)
        &&& self.1.syn_renderable(const_like)
        &&& self.2.syn_renderable(const_like)
        &&& self.3.syn_renderable(const_like)
        &&& self.4.syn_renderable(const_like)
    }

    open spec fn syn_text(&self, const_like: bool) -> Seq<char> {
        "( "@
            + self.0.syn_text(const_like) + ", "@
            + self.1.syn_text(const_like) + ", "@
            + self.2.syn_text(const_like) + ", "@
            + self.3.syn_text(const_like) + ", "@
            + self.4.syn_text(const_like) + ", "@
            + ")"@
    }

    fn fmt(&self, f: &mut String, const_like: bool) {
        let ghost base = f@;
        f.append("( ");
        let ghost done = "( "@;
        write_element(f, &self.0, const_like);
        proof {
            lemma_append_element(base, done, self.0.syn_text(const_like));
        }
        let ghost done = done + self.0.syn_text(const_like) + ", "@;
        write_element(f, &self.1, const_like);
        proof {
            lemma_append_element(base, done, self.1.syn_text(const_like));
        }
        let ghost done = done + self.1.syn_text(const_like) + ", "@;
        write_element(f, &self.2, const_like);
        proof {
            lemma_append_element(base, done, self.2.syn_text(const_like));
        }
        let ghost done = done + self.2.syn_text(const_like) + ", "@;
        write_element(f, &self.3, const_like);
        proof {
            lemma_append_element(base, done, self.3.syn_text(const_like));
        }
        let ghost done = done + self.3.syn_text(const_like) + ", "@;
        write_element(f, &self.4, const_like);
        proof {
            lemma_append_element(base, done, self.4.syn_text(const_like));
        }
        let ghost done = done + self.4.syn_text(const_like) + ", "@;
        f.append(")");
        proof {
            lemma_concat_associative(base, done, ")"@);
        }
    }
}

impl<H, I, J, K, L> SynTuple for (H, I, J, K, L,)
where
    H: SynDebug,
    I: SynDebug,
    J: SynDebug,
    K: SynDebug,
    L: SynDebug,
{
    open spec fn arity() -> nat {
        5
    }

    open spec fn element_text(&self, i: int, const_like: bool) -> Seq<char> {
        if i == 0 {
            self.0.syn_text(const_like)
        } else if i == 1 {
            self.1.syn_text(const_like)
        } else if i == 2 {
            self.2.syn_text(const_like)
        } else if i == 3 {
            self.3.syn_text(const_like)
        } else {
            self.4.syn_text(const_like)
        }
    }

    proof fn lemma_tuple_text(&self, const_like: bool) {
        let parts = self.element_texts(const_like);
        lemma_parts_start(parts);
        lemma_parts_step(parts, 1);
        lemma_parts_step(parts, 2);
        lemma_parts_step(parts, 3);
        lemma_parts_step(parts, 4);
        lemma_parts_step(parts, 5);
        assert(parts.take(5) =~= parts);
    }
}

impl<I, J, K, L> SynDebug for (I, J, K, L,)
where
    I: SynDebug,
    J: SynDebug,
    K: SynDebug,
    L: SynDebug,
{
    open spec fn syn_renderable(&self, const_like: bool) -> bool {
        &&& self.0.syn_renderable(const_like)
        &&& self.1.syn_renderable(const_like)
        &&& self.2.syn_renderable(const_like)
        &&& self.3.syn_renderable(const_like)
    }

    open spec fn syn_text(&self, const_like: bool) -> Seq<char> {
        "( "@
            + self.0.syn_text(const_like) + ", "@
            + self.1.syn_text(const_like) + ", "@
            + self.2.syn_text(const_like) + ", "@
            + self.3.syn_text(const_like) + ", "@
            + ")"@
    }

    fn fmt(&self, f: &mut String, const_like: bool) {
        let ghost base = f@;
        f.append("( ");
        let ghost done = "( "@;
        write_element(f, &self.0, const_like);
        proof {
            lemma_append_element(base, done, self.0.syn_text(const_like));
        }
        let ghost done = done + self.0.syn_text(const_like) + ", "@;
        write_element(f, &self.1, const_like);
        proof {
            lemma_append_element(base, done, self.1.syn_text(const_like));
        }
        let ghost done = done + self.1.syn_text(const_like) + ", "@;
        write_element(f, &self.2, const_like);
        proof {
            lemma_append_element(base, done, self.2.syn_text(const_like));
        }
        let ghost done = done + self.2.syn_text(const_like) + ", "@;
        write_element(f, &self.3, const_like);
        proof {
            lemma_append_element(base, done, self.3.syn_text(const_like));
        }
        let ghost done = done + self.3.syn_text(const_like) + ", "@;
        f.append(")");
        proof {
            lemma_concat_associative(base, done, ")"@);
        }
    }
}

impl<I, J, K, L> SynTuple for (I, J, K, L,)
where
    I: SynDebug,
    J: SynDebug,
    K: SynDebug,
    L: SynDebug,
{
    open spec fn arity() -> nat {
        4
    }

    open spec fn element_text(&self, i: int, const_like: bool) -> Seq<char> {
        if i == 0 {
            self.0.syn_text(const_like)
        } else if i == 1 {
            self.1.syn_text(const_like)
        } else if i == 2 {
            self.2.syn_text(const_like)
        } else {
            self.3.syn_text(const_like)
        }
    }

    proof fn lemma_tuple_text(&self, const_like: bool) {
        let parts = self.element_texts(const_like);
        lemma_parts_start(parts);
        lemma_parts_step(parts, 1);
        lemma_parts_step(parts, 2);
        lemma_parts_step(parts, 3);
        lemma_parts_step(parts, 4);
        assert(parts.take(4) =~= parts);
    }
}

impl<J, K, L> SynDebug for (J, K, L,)
where
    J: SynDebug,
    K: SynDebug,
    L: SynDebug,
{
    open spec fn syn_renderable(&self, const_like: bool) -> bool {
        &&& self.0.syn_renderable(const_like)
        &&& self.1.syn_renderable(const_like)
        &&& self.2.syn_renderable(const_like)
    }

    open spec fn syn_text(&self, const_like: bool) -> Seq<char> {
        "( "@
            + self.0.syn_text(const_like) + ", "@
            + self.1.syn_text(const_like) + ", "@
            + self.2.syn_text(const_like) + ", "@
            + ")"@
    }

    fn fmt(&self, f: &mut String, const_like: bool) {
        let ghost base = f@;
        f.append("( ");
        let ghost done = "( "@;
        write_element(f, &self.0, const_like);
        proof {
            lemma_append_element(base, done, self.0.syn_text(const_like));
        }
        let ghost done = done + self.0.syn_text(const_like) + ", "@;
        write_element(f, &self.1, const_like);
        proof {
            lemma_append_element(base, done, self.1.syn_text(const_like));
        }
        let ghost done = done + self.1.syn_text(const_like) + ", "@;
        write_element(f, &self.2, const_like);
        proof {
            lemma_append_element(base, done, self.2.syn_text(const_like));
        }
        let ghost done = done + self.2.syn_text(const_like) + ", "@;
        f.append(")");
        proof {
            lemma_concat_associative(base, done, ")"@);
        }
    }
}

impl<J, K, L> SynTuple for (J, K, L,)
where
    J: SynDebug,
    K: SynDebug,
    L: SynDebug,
{
    open spec fn arity() -> nat {
        3
    }

    open spec fn element_text(&self, i: int, const_like: bool) -> Seq<char> {
        if i == 0 {
            self.0.syn_text(const_like)
        } else if i == 1 {
            self.1.syn_text(const_like)
        } else {
            self.2.syn_text(const_like)
        }
    }

    proof fn lemma_tuple_text(&self, const_like: bool) {
        let parts = self.element_texts(const_like);
        lemma_parts_start(parts);
        lemma_parts_step(parts, 1);
        lemma_parts_step(parts, 2);
        lemma_parts_step(parts, 3);
        assert(parts.take(3) =~= parts);
    }
}

impl<K, L> SynDebug for (K, L,)
where
    K: SynDebug,
    L: SynDebug,
{
    open spec fn syn_renderable(&self, const_like: bool) -> bool {
        &&& self.0.syn_renderable(const_like)
        &&& self.1.syn_renderable(const_like)
    }

    open spec fn syn_text(&self, const_like: bool) -> Seq<char> {
        "( "@
            + self.0.syn_text(const_like) + ", "@
            + self.1.syn_text(const_like) + ", "@
            + ")"@
    }

    fn fmt(&self, f: &mut String, const_like: bool) {
        let ghost base = f@;
        f.append("( ");
        let ghost done = "( "@;
        write_element(f, &self.0, const_like);
        proof {
            lemma_append_element(base, done, self.0.syn_text(const_like));
        }
        let ghost done = done + self.0.syn_text(const_like) + ", "@;
        write_element(f, &self.1, const_like);
        proof {
            lemma_append_element(base, done, self.1.syn_text(const_like));
        }
        let ghost done = done + self.1.syn_text(const_like) + ", "@;
        f.append(")");
        proof {
            lemma_concat_associative(base, done, ")"@);
        }
    }
}

impl<K, L> SynTuple for (K, L,)
where
    K: SynDebug,
    L: SynDebug,
{
    open spec fn arity() -> nat {
        2
    }

    open spec fn element_text(&self, i: int, const_like: bool) -> Seq<char> {
        if i == 0 {
            self.0.syn_text(const_like)
        } else {
            self.1.syn_text(const_like)
        }
    }

    proof fn lemma_tuple_text(&self, const_like: bool) {
        let parts = self.element_texts(const_like);
        lemma_parts_start(parts);
        lemma_parts_step(parts, 1);
        lemma_parts_step(parts, 2);
        assert(parts.take(2) =~= parts);
    }
}

impl<L> SynDebug for (L,)
where
    L: SynDebug,
{
    open spec fn syn_renderable(&self, const_like: bool) -> bool {
        &&& self.0.syn_renderable(const_like)
    }

    open spec fn syn_text(&self, const_like: bool) -> Seq<char> {
        "( "@
            + self.0.syn_text(const_like) + ", "@
            + ")"@
    }

    fn fmt(&self, f: &mut String, const_like: bool) {
        let ghost base = f@;
        f.append("( ");
        let ghost done = "( "@;
        write_element(f, &self.0, const_like);
        proof {
            lemma_append_element(base, done, self.0.syn_text(const_like));
        }
        let ghost done = done + self.0.syn_text(const_like) + ", "@;
        f.append(")");
        proof {
            lemma_concat_associative(base, done, ")"@);
        }
    }
}

impl<L> SynTuple for (L,)
where
    L: SynDebug,
{
    open spec fn arity() -> nat {
        1
    }

    open spec fn element_text(&self, i: int, const_like: bool) -> Seq<char> {
        self.0.syn_text(const_like)
    }

    proof fn lemma_tuple_text(&self, const_like: bool) {
        let parts = self.element_texts(const_like);
        lemma_parts_start(parts);
        lemma_parts_step(parts, 1);
        assert(parts.take(1) =~= parts);
    }
}

} // verus!
