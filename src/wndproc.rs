//! Chaining of the host window's message procedure: the overlay's procedure
//! sees each message first and then forwards it to the procedure it replaced.
use vstd::prelude::*;

verus! {

/// The procedure that the overlay's procedure forwards to, by address.
pub struct WndProcChain {
    pub original: Option<usize>,
}

impl WndProcChain {
    /// Nothing captured yet.
    pub fn new() -> (r: Self)
        ensures
            r.original is None,
    {
        WndProcChain { original: None }
    }

    /// Records `current`, the procedure found on a window that is being
    /// bound, as the one to forward to, and answers whether the overlay's
    /// procedure `ours` is to be installed in its place. Where the window
    /// already runs `ours`, the earlier capture stands: recording it would
    /// chain the overlay onto itself.
    pub fn capture(&mut self, current: Option<usize>, ours: usize) -> (install: bool)
        ensures
            install == (current != Some(ours)),
            install ==> final(self).original == current,
            !install ==> final(self).original == old(self).original,
    {
        if current == Some(ours) {
            false
        } else {
            self.original = current;
            true
        }
    }

    /// Where a message goes after the overlay has seen it.
    pub fn forward_target(&self) -> (r: Option<usize>)
        ensures
            r == self.original,
    {
        self.original
    }
}

} // verus!
