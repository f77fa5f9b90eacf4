//! The authentication credential and the shared slot that holds it.

use vstd::prelude::*;

verus! {

/// An opaque authentication credential, stored and compared by value.
#[derive(Debug)]
pub struct Token {
    value: String,
}

impl View for Token {
    type V = Seq<char>;

    closed spec fn view(&self) -> Seq<char> {
        self.value@
    }
}

impl Clone for Token {
    fn clone(&self) -> (r: Self)
        ensures
            r@ == self@,
    {
        Token { value: self.value.clone() }
    }
}

impl Token {
    /// Wraps a credential string as a token.
    pub fn new(value: String) -> (r: Token)
        ensures
            r@ == value@,
    {
        Token { value }
    }

    /// The credential as a string slice.
    pub fn as_str(&self) -> (r: &str)
        ensures
            r@ == self@,
    {
        self.value.as_str()
    }
}

/// A slot holding the current credential, shared between the socket session
/// and whatever obtains tokens (for instance an HTTP login flow).
///
/// The slot follows a last-writer-wins rule; `take` removes and returns the
/// current value so a credential is never used twice by concurrent
/// authentication attempts.
pub struct TokenStorage {
    slot: Option<Token>,
}

impl View for TokenStorage {
    type V = Option<Seq<char>>;

    closed spec fn view(&self) -> Option<Seq<char>> {
        match self.slot {
            Some(t) => Some(t@),
            None => None,
        }
    }
}

impl TokenStorage {
    /// An empty slot.
    pub fn new() -> (r: TokenStorage)
        ensures
            r@ is None,
    {
        TokenStorage { slot: None }
    }

    /// Stores a credential, replacing whatever was there.
    pub fn set(&mut self, token: Token)
        ensures
            final(self)@ == Some(token@),
    {
        self.slot = Some(token);
    }

    /// A copy of the stored credential, leaving the slot as it was.
    pub fn get(&self) -> (r: Option<Token>)
        ensures
            match r {
                Some(t) => self@ == Some(t@),
                None => self@ is None,
            },
    {
        match &self.slot {
            Some(t) => Some(t.clone()),
            None => None,
        }
    }

    /// Removes and returns the stored credential, leaving the slot empty.
    pub fn take(&mut self) -> (r: Option<Token>)
        ensures
            final(self)@ is None,
            match r {
                Some(t) => old(self)@ == Some(t@),
                None => old(self)@ is None,
            },
    {
        self.slot.take()
    }
}

} // verus!
