use vstd::prelude::*;

pub mod text;
pub mod ints;
pub mod tuples;
pub mod impls;
pub mod wrap;
pub mod record;

pub use wrap::DebugAsSyn;

verus! {

/// A value that can be written out as Rust syntax which, read back as an
/// expression, denotes that value.
///
/// `const_like` asks for a rendering that could stand in a constant: types
/// that need the heap (`Vec`, `String`, `Box`) cannot be rendered that way.
pub trait SynDebug {
    /// Whether `fmt` accepts this value in the given mode.
    ///
    /// A type that does not describe its rendering is never known to be
    /// renderable, so verified code cannot rely on its `fmt`.
    open spec fn syn_renderable(&self, const_like: bool) -> bool {
        false
    }

    /// The text that `fmt` writes for this value in the given mode.
    open spec fn syn_text(&self, const_like: bool) -> Seq<char> {
        Seq::empty()
    }

    /// Appends the rendering of `self` to `f`.
    fn fmt(&self, f: &mut String, const_like: bool)
        requires
            self.syn_renderable(const_like),
        ensures
            final(f)@ == old(f)@ + self.syn_text(const_like),
    ;
}

/// Appends the ordinary (non-constant) rendering of `value` to `writer`.
pub fn to_writer<T: SynDebug + ?Sized>(writer: &mut String, value: &T)
    requires
        value.syn_renderable(false),
    ensures
        final(writer)@ == old(writer)@ + value.syn_text(false),
{
    value.fmt(writer, false)
}

/// The ordinary (non-constant) rendering of `value`, as a new string.
pub fn to_string<T: SynDebug + ?Sized>(value: &T) -> (s: String)
    requires
        value.syn_renderable(false),
    ensures
        s@ == value.syn_text(false),
{
    let mut s = String::new();
    to_writer(&mut s, value);
    s
}

} // verus!
