use vstd::prelude::*;
use crate::class_id::{ClassId, class_name};

verus! {

/// A wrapped class, known by a single fully qualified name.
pub trait ClassName {
    /// The identity of the wrapped class.
    spec fn class_of() -> ClassId;

    /// The wrapped class's fully qualified name.
    fn name() -> (r: &'static str)
        ensures
            r@ == class_name(Self::class_of()),
    ;
}

} // verus!
