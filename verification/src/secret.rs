use vstd::prelude::*;
use zeroize::Zeroizing;

verus! {

/// A string whose memory is wiped when it is dropped, kept in a
/// `zeroize::Zeroizing<String>`.
#[verifier::external_body]
pub struct SecretString {
    inner: Zeroizing<String>,
}

/// The characters that a `SecretString` holds.
pub uninterp spec fn secret_chars(s: SecretString) -> Seq<char>;

impl View for SecretString {
    type V = Seq<char>;

    open spec fn view(&self) -> Seq<char> {
        secret_chars(*self)
    }
}

impl SecretString {
    /// `Zeroizing::new`: moves the string into the wiping wrapper, which then
    /// holds exactly its characters.
    #[verifier::external_body]
    pub fn new(s: String) -> (r: SecretString)
        ensures
            secret_chars(r) == s@,
    {
        SecretString { inner: Zeroizing::new(s) }
    }

    /// `Deref::deref` of `Zeroizing`: the wrapped string.
    #[verifier::external_body]
    pub fn as_string(&self) -> (r: &String)
        ensures
            r@ == secret_chars(*self),
    {
        &*self.inner
    }

    /// `DerefMut::deref_mut` of `Zeroizing`: the wrapped string; what is
    /// left in it when the borrow ends is what the wrapper holds.
    #[verifier::external_body]
    pub fn as_mut_string(&mut self) -> (r: &mut String)
        ensures
            r@ == secret_chars(*old(self)),
            secret_chars(*final(self)) == final(r)@,
    {
        &mut *self.inner
    }
}

} // verus!
