//! Fresh identities for shapes.
//!
//! Intersections and computations name a shape by this identity rather
//! than holding a reference to it; the world looks the shape back up at
//! shading time.

use vstd::prelude::*;

verus! {

/// Relies on `uuid::Uuid::new_v4` and the `Display` form of `Uuid`:
/// a fresh random version-4 UUID rendered in its hyphenated lower-hex
/// form, which is always 36 characters. The value is random, so nothing
/// more is promised of it.
#[verifier::external_body]
pub(crate) fn fresh_id() -> (r: String)
    ensures
        r@.len() == 36,
{
    uuid::Uuid::new_v4().to_string()
}

} // verus!
