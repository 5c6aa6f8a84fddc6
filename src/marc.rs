use vstd::prelude::*;

verus! {

/// Wraps a value for handing across a binding boundary. Where no shared
/// ownership is needed, the wrapped value is the value itself.
pub fn marc<T>(t: T) -> (r: T)
    ensures
        r == t,
{
    t
}

} // verus!
