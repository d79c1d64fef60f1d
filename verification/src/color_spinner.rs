use vstd::prelude::*;

verus! {

/// Hands out the entries of a palette in turn, starting over after the last.
///
/// The spinner does not hold the palette, only its size: `next` returns the
/// position of the entry to use.
pub struct ColorSpinner {
    i: usize,
    len: usize,
}

impl ColorSpinner {
    /// How many times `next` has been called, modulo the range of `usize`.
    pub closed spec fn count(&self) -> nat {
        self.i as nat
    }

    /// The size of the palette.
    pub closed spec fn size(&self) -> nat {
        self.len as nat
    }

    /// A spinner over a palette of `len` entries, about to hand out the first.
    pub fn new(len: usize) -> (r: Self)
        ensures
            r.count() == 0,
            r.size() == len,
    {
        ColorSpinner { i: 0, len }
    }

    /// The position of the next entry. The counter wraps at `usize::MAX`, as
    /// an atomic `fetch_add` does.
    pub fn next(&mut self) -> (r: usize)
        requires
            old(self).size() > 0,
        ensures
            r == old(self).count() % old(self).size(),
            final(self).size() == old(self).size(),
            final(self).count() == (if old(self).count() == usize::MAX {
                0
            } else {
                old(self).count() + 1
            }),
    {
        let r = self.i % self.len;
        self.i = if self.i == usize::MAX {
            0
        } else {
            self.i + 1
        };
        r
    }
}

} // verus!
