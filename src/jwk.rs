//! A JSON Web Key, held as the plain values that the algorithms read.
use vstd::prelude::*;

verus! {

/// The value of a JWK member: a JSON string, or any other JSON value.
#[derive(Clone, Debug)]
pub enum JwkValue {
    Text(String),
    NotText,
}

/// A JSON Web Key: its registered members and its other members by name.
#[derive(Clone, Debug)]
pub struct Jwk {
    /// `kty`
    pub key_type: String,
    /// `use`
    pub key_use: Option<String>,
    /// `key_ops`
    pub key_operations: Option<Vec<String>>,
    /// `alg`
    pub algorithm: Option<String>,
    /// `kid`
    pub key_id: Option<String>,
    /// The other members, the first of equal names taking effect.
    pub parameters: Vec<(String, JwkValue)>,
}

/// The value named `name` among `params`: the first entry of that name.
pub open spec fn lookup(params: Seq<(String, JwkValue)>, name: Seq<char>) -> Option<JwkValue>
    decreases params.len(),
{
    if params.len() == 0 {
        None
    } else if params[0].0@ == name {
        Some(params[0].1)
    } else {
        lookup(params.drop_first(), name)
    }
}

pub open spec fn opt_view(s: Option<String>) -> Option<Seq<char>> {
    match s {
        Some(v) => Some(v@),
        None => None,
    }
}

impl Jwk {
    /// The member `name`.
    pub open spec fn parameter_spec(&self, name: Seq<char>) -> Option<JwkValue> {
        lookup(self.parameters@, name)
    }

    /// Whether the key may be used for `op`: `key_ops` is absent or lists it.
    pub open spec fn permits(&self, op: Seq<char>) -> bool {
        match self.key_operations {
            None => true,
            Some(ops) => exists|i: int| 0 <= i < ops@.len() && #[trigger] ops@[i]@ == op,
        }
    }

    /// A key of type `key_type` with no other member.
    pub fn new(key_type: &str) -> (r: Jwk)
        ensures
            r.key_type@ == key_type@,
            r.key_use is None,
            r.key_operations is None,
            r.algorithm is None,
            r.key_id is None,
            r.parameters@.len() == 0,
    {
        Jwk {
            key_type: key_type.to_owned(),
            key_use: None,
            key_operations: None,
            algorithm: None,
            key_id: None,
            parameters: Vec::new(),
        }
    }

    /// `kty`
    pub fn key_type(&self) -> (r: &str)
        ensures
            r@ == self.key_type@,
    {
        self.key_type.as_str()
    }

    /// `use`
    pub fn key_use(&self) -> (r: Option<&str>)
        ensures
            r matches Some(s) ==> opt_view(self.key_use) == Some(s@),
            r is None ==> self.key_use is None,
    {
        match &self.key_use {
            Some(s) => Some(s.as_str()),
            None => None,
        }
    }

    /// `alg`
    pub fn algorithm(&self) -> (r: Option<&str>)
        ensures
            r matches Some(s) ==> opt_view(self.algorithm) == Some(s@),
            r is None ==> self.algorithm is None,
    {
        match &self.algorithm {
            Some(s) => Some(s.as_str()),
            None => None,
        }
    }

    /// `kid`
    pub fn key_id(&self) -> (r: Option<&str>)
        ensures
            r matches Some(s) ==> opt_view(self.key_id) == Some(s@),
            r is None ==> self.key_id is None,
    {
        match &self.key_id {
            Some(s) => Some(s.as_str()),
            None => None,
        }
    }

    /// Whether the key may be used for the operation `op`.
    pub fn is_for_key_operation(&self, op: &str) -> (r: bool)
        ensures
            r == self.permits(op@),
    {
        match &self.key_operations {
            None => true,
            Some(ops) => {
                let want = op.to_owned();
                let mut i: usize = 0;
                while i < ops.len()
                    invariant
                        i <= ops@.len(),
                        want@ == op@,
                        self.key_operations == Some(*ops),
                        forall|j: int| 0 <= j < i ==> #[trigger] ops@[j]@ != op@,
                    decreases ops@.len() - i,
                {
                    if ops[i] == want {
                        assert(ops@[i as int]@ == op@);
                        let ghost k = self.key_operations->0;
                        assert(k@[i as int]@ == op@);
                        return true;
                    }
                    i = i + 1;
                }
                false
            },
        }
    }

    /// The member `name`.
    pub fn parameter(&self, name: &str) -> (r: Option<&JwkValue>)
        ensures
            r matches Some(v) ==> self.parameter_spec(name@) == Some(*v),
            r is None ==> self.parameter_spec(name@) is None,
    {
        let want = name.to_owned();
        let mut i: usize = 0;
        assert(self.parameters@.subrange(0, self.parameters@.len() as int) =~= self.parameters@);
        while i < self.parameters.len()
            invariant
                i <= self.parameters@.len(),
                want@ == name@,
                lookup(self.parameters@, name@) == lookup(
                    self.parameters@.subrange(i as int, self.parameters@.len() as int),
                    name@,
                ),
            decreases self.parameters@.len() - i,
        {
            let ghost rest = self.parameters@.subrange(i as int, self.parameters@.len() as int);
            assert(rest.drop_first() =~= self.parameters@.subrange(
                i as int + 1,
                self.parameters@.len() as int,
            ));
            assert(rest[0] == self.parameters@[i as int]);
            if self.parameters[i].0 == want {
                return Some(&self.parameters[i].1);
            }
            i = i + 1;
        }
        None
    }

    /// Sets the member `name`, in place of any earlier value of that name.
    pub fn set_parameter(&mut self, name: &str, value: JwkValue)
        ensures
            final(self).parameter_spec(name@) == Some(value),
            forall|other: Seq<char>|
                other != name@ ==> #[trigger] final(self).parameter_spec(other)
                    == old(self).parameter_spec(other),
            final(self).key_type == old(self).key_type,
            final(self).key_use == old(self).key_use,
            final(self).key_operations == old(self).key_operations,
            final(self).algorithm == old(self).algorithm,
            final(self).key_id == old(self).key_id,
    {
        self.parameters.insert(0, (name.to_owned(), value));
        assert(self.parameters@.drop_first() =~= old(self).parameters@);
    }
}

} // verus!
