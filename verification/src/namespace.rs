use vstd::prelude::*;

use crate::error::Error;

verus! {

/// A namespace of the catalog: a path of levels, none of which is the empty
/// string.
#[derive(Debug)]
pub struct Namespace {
    levels: Vec<String>,
}

impl Namespace {
    /// The levels of the namespace, as sequences of characters.
    pub closed spec fn spec_levels(&self) -> Seq<Seq<char>> {
        self.levels.deep_view()
    }

    /// Every level of a namespace is a non-empty string.
    #[verifier::type_invariant]
    pub closed spec fn wf(&self) -> bool {
        forall|i: int|
            0 <= i < self.spec_levels().len() ==> #[trigger] self.spec_levels()[i].len() > 0
    }

    /// Builds a namespace from the given levels. Fails if any level is the
    /// empty string.
    pub fn try_new(levels: &[String]) -> (r: Result<Self, Error>)
        ensures
            r matches Ok(n) ==> n.spec_levels() =~= levels.deep_view(),
            r is Ok <==> (forall|i: int|
                0 <= i < levels.deep_view().len() ==> #[trigger] levels.deep_view()[i].len() > 0),
            r matches Err(e) ==> e == Error::InvalidMetadata,
    {
        let n = levels.len();
        let mut copied: Vec<String> = Vec::new();
        let mut i: usize = 0;
        while i < n
            invariant
                n == levels@.len(),
                0 <= i <= n,
                copied@.len() == i,
                forall|j: int| 0 <= j < i ==> #[trigger] copied@[j]@ == levels@[j]@,
                forall|j: int| 0 <= j < i ==> #[trigger] levels@[j]@.len() > 0,
            decreases n - i,
        {
            if levels[i].as_str().is_empty() {
                assert(levels.deep_view()[i as int].len() == 0);
                return Err(Error::InvalidMetadata);
            }
            copied.push(levels[i].clone());
            i += 1;
        }
        let out = Namespace { levels: copied };
        assert(out.spec_levels() =~= levels.deep_view());
        Ok(out)
    }

    /// The empty namespace, used only as the catalog-root sentinel.
    pub fn empty() -> (r: Self)
        ensures
            r.spec_levels() =~= Seq::<Seq<char>>::empty(),
    {
        let out = Namespace { levels: Vec::new() };
        assert(out.spec_levels() =~= Seq::<Seq<char>>::empty());
        out
    }

    /// The levels of the namespace. None of them is the empty string.
    pub fn levels(&self) -> (r: &[String])
        ensures
            r.deep_view() == self.spec_levels(),
            forall|i: int|
                0 <= i < self.spec_levels().len() ==> #[trigger] self.spec_levels()[i].len() > 0,
    {
        proof {
            use_type_invariant(&*self);
        }
        self.levels.as_slice()
    }

    /// The number of levels.
    pub fn len(&self) -> (r: usize)
        ensures
            r == self.spec_levels().len(),
    {
        self.levels.len()
    }

}

} // verus!
