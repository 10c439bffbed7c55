//! The single source of randomness of the core: transaction ids are drawn at
//! random so that concurrent exchanges on a shared socket rarely collide, and
//! re-drawn on a collision.

use vstd::prelude::*;

verus! {

/// Relies on rand::random: draws an arbitrary `u32`. Nothing is assumed of
/// the value; every caller must cope with any result, collisions included.
#[verifier::external_body]
pub fn random_u32() -> u32 {
    rand::random::<u32>()
}

} // verus!
