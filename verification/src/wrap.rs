//! A wrapper whose debug text is the Rust-syntax rendering of what it holds.
use vstd::prelude::*;

use crate::SynDebug;

verus! {

/// Holds a value so that its debug text is its Rust-syntax rendering.
pub struct DebugAsSyn<T: SynDebug>(pub T);

impl<T: SynDebug> DebugAsSyn<T> {
    /// Appends the debug text: the ordinary (non-constant) rendering of the
    /// held value.
    pub fn fmt(&self, f: &mut String)
        requires
            self.0.syn_renderable(false),
        ensures
            final(f)@ == old(f)@ + self.0.syn_text(false),
    {
        self.0.fmt(f, false)
    }
}

} // verus!
