use vstd::prelude::*;

verus! {

/// An error raised by a byte source, kept as the rendering of its cause.
pub struct Error {
    inner: String,
}

impl Error {
    /// The rendering of the underlying cause.
    pub closed spec fn cause(&self) -> Seq<char> {
        self.inner@
    }

    pub fn new(error: String) -> (r: Error)
        ensures
            r.cause() == error@,
    {
        Error { inner: error }
    }

    /// The rendering of the error: that of its cause.
    pub fn to_string(&self) -> (r: String)
        ensures
            r@ == self.cause(),
    {
        self.inner.clone()
    }

    pub fn into_inner(self) -> (r: String)
        ensures
            r@ == self.cause(),
    {
        self.inner
    }
}

} // verus!
