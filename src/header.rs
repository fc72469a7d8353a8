//! The part of a JWE header that the key-management algorithms write.
use vstd::prelude::*;

verus! {

/// A JWE header, as far as the algorithms here touch it.
#[derive(Clone, Debug)]
pub struct JweHeader {
    algorithm: Option<String>,
}

impl JweHeader {
    /// The `alg` field.
    pub closed spec fn algorithm_spec(&self) -> Option<Seq<char>> {
        match self.algorithm {
            Some(s) => Some(s@),
            None => None,
        }
    }

    /// A header with no `alg` field.
    pub fn new() -> (r: JweHeader)
        ensures
            r.algorithm_spec() is None,
    {
        JweHeader { algorithm: None }
    }

    /// Sets the `alg` field to `name`, replacing any earlier value.
    pub fn set_algorithm(&mut self, name: &str)
        ensures
            final(self).algorithm_spec() == Some(name@),
    {
        self.algorithm = Some(name.to_owned());
    }

    /// The `alg` field.
    pub fn algorithm(&self) -> (r: Option<&str>)
        ensures
            r matches Some(s) ==> self.algorithm_spec() == Some(s@),
            r is None ==> self.algorithm_spec() is None,
    {
        match &self.algorithm {
            Some(s) => Some(s.as_str()),
            None => None,
        }
    }
}

} // verus!
