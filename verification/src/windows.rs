use vstd::prelude::*;

verus! {

/// A Windows handle, as its raw value. Whoever owns the handle closes it.
#[derive(Debug)]
pub struct Handle {
    inner: isize,
}

impl View for Handle {
    type V = isize;

    closed spec fn view(&self) -> isize {
        self.inner
    }
}

impl Handle {
    pub fn new(handle: isize) -> (r: Handle)
        ensures
            r@ == handle,
    {
        Handle { inner: handle }
    }

    pub fn get(&self) -> (r: isize)
        ensures
            r == self@,
    {
        self.inner
    }

    pub fn is_null(&self) -> (r: bool)
        ensures
            r == (self@ == 0),
    {
        self.inner == 0
    }
}

} // verus!
