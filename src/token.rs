use vstd::prelude::*;

verus! {

/// A caller-chosen identifier, handed back unchanged in every readiness event
/// of the registration it was given to.
#[derive(Clone, Copy, Debug, PartialEq, Eq, Structural, PartialOrd, Ord, Hash)]
pub struct Token(pub usize);

} // verus!
