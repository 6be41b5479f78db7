//! A credential value that is only ever read on purpose.
use vstd::prelude::*;

verus! {

/// A secret text. It has no `Debug` and no public field, so it cannot be
/// printed or serialised by accident; `peek` is the one way to read it.
pub struct Secret {
    value: String,
}

impl View for Secret {
    type V = Seq<char>;

    closed spec fn view(&self) -> Seq<char> {
        self.value@
    }
}

impl Secret {
    pub fn new(value: String) -> (r: Secret)
        ensures
            r@ == value@,
    {
        Secret { value }
    }

    /// The secret in plain text, for signing and for header values.
    pub fn peek(&self) -> (r: &str)
        ensures
            r@ == self@,
    {
        self.value.as_str()
    }

    /// A copy of the secret.
    pub fn duplicate(&self) -> (r: Secret)
        ensures
            r@ == self@,
    {
        Secret { value: self.value.as_str().to_owned() }
    }
}

} // verus!
