use vstd::prelude::*;

use crate::error::Error;
use crate::namespace::Namespace;

verus! {

/// A fully qualified table or view name: a namespace plus a final name level.
#[derive(Debug)]
pub struct Identifier {
    namespace: Namespace,
    name: String,
}

impl Identifier {
    /// The namespace part.
    pub closed spec fn spec_namespace(&self) -> Seq<Seq<char>> {
        self.namespace.spec_levels()
    }

    /// The name part.
    pub closed spec fn spec_name(&self) -> Seq<char> {
        self.name@
    }

    /// Builds an identifier from a namespace and a name. The name, like a
    /// namespace level, must not be the empty string.
    pub fn try_new(namespace: Namespace, name: String) -> (r: Result<Self, Error>)
        ensures
            r matches Ok(id) ==> id.spec_namespace() == namespace.spec_levels()
                && id.spec_name() == name@,
            r is Ok <==> name@.len() > 0,
            r matches Err(e) ==> e == Error::InvalidMetadata,
    {
        if name.as_str().is_empty() {
            Err(Error::InvalidMetadata)
        } else {
            Ok(Identifier { namespace, name })
        }
    }

    /// The namespace of the identifier.
    pub fn namespace(&self) -> (r: &Namespace)
        ensures
            r.spec_levels() == self.spec_namespace(),
    {
        &self.namespace
    }

    /// The name of the identifier.
    pub fn name(&self) -> (r: &String)
        ensures
            r@ == self.spec_name(),
    {
        &self.name
    }
}

} // verus!
