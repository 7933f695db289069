//! What the facades hand to the host.
//!
//! A buffered request does not show what it carries, so the values are made
//! here, by functions whose contracts fix them, and the facades pass on what
//! these return.

use vstd::prelude::*;

verus! {

/// The default value of `C`, as `C::default` makes it.
pub fn default_alone<C: Default>() -> (entity: C)
    ensures
        call_ensures(C::default, (), entity),
{
    C::default()
}

/// `entity` and `bundle` side by side, both unchanged.
pub fn with_bundle<C, B>(entity: C, bundle: B) -> (pair: (C, B))
    ensures
        pair.0 == entity,
        pair.1 == bundle,
{
    (entity, bundle)
}

/// The default value of `C` beside `bundle`, which is unchanged.
pub fn default_with<C: Default, B>(bundle: B) -> (pair: (C, B))
    ensures
        call_ensures(C::default, (), pair.0),
        pair.1 == bundle,
{
    (C::default(), bundle)
}

/// A clone of `resource`, as `R::clone` makes it.
pub fn fresh_clone<R: Clone>(resource: &R) -> (copy: R)
    ensures
        cloned(*resource, copy),
{
    resource.clone()
}

} // verus!
