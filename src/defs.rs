//! The predefined namespace UUIDs for name-based generation.
use vstd::prelude::*;

use crate::Uuid;

verus! {

/// The predefined DNS namespace, 6ba7b810-9dad-11d1-80b4-00c04fd430c8.
pub fn namespace_dns() -> (r: Uuid)
    ensures
        r@ == seq![107u8, 167, 184, 16, 157, 173, 17, 209, 128, 180, 0, 192, 79, 212, 48, 200],
{
    let b = [107u8, 167, 184, 16, 157, 173, 17, 209, 128, 180, 0, 192, 79, 212, 48, 200];
    assert(b@ =~= seq![107u8, 167, 184, 16, 157, 173, 17, 209, 128, 180, 0, 192, 79, 212, 48, 200]);
    Uuid::from_bytes(b)
}

/// The predefined URL namespace, 6ba7b811-9dad-11d1-80b4-00c04fd430c8.
pub fn namespace_url() -> (r: Uuid)
    ensures
        r@ == seq![107u8, 167, 184, 17, 157, 173, 17, 209, 128, 180, 0, 192, 79, 212, 48, 200],
{
    let b = [107u8, 167, 184, 17, 157, 173, 17, 209, 128, 180, 0, 192, 79, 212, 48, 200];
    assert(b@ =~= seq![107u8, 167, 184, 17, 157, 173, 17, 209, 128, 180, 0, 192, 79, 212, 48, 200]);
    Uuid::from_bytes(b)
}

/// The predefined OID namespace, 6ba7b812-9dad-11d1-80b4-00c04fd430c8.
pub fn namespace_oid() -> (r: Uuid)
    ensures
        r@ == seq![107u8, 167, 184, 18, 157, 173, 17, 209, 128, 180, 0, 192, 79, 212, 48, 200],
{
    let b = [107u8, 167, 184, 18, 157, 173, 17, 209, 128, 180, 0, 192, 79, 212, 48, 200];
    assert(b@ =~= seq![107u8, 167, 184, 18, 157, 173, 17, 209, 128, 180, 0, 192, 79, 212, 48, 200]);
    Uuid::from_bytes(b)
}

/// The predefined X500 namespace, 6ba7b814-9dad-11d1-80b4-00c04fd430c8.
pub fn namespace_x500() -> (r: Uuid)
    ensures
        r@ == seq![107u8, 167, 184, 20, 157, 173, 17, 209, 128, 180, 0, 192, 79, 212, 48, 200],
{
    let b = [107u8, 167, 184, 20, 157, 173, 17, 209, 128, 180, 0, 192, 79, 212, 48, 200];
    assert(b@ =~= seq![107u8, 167, 184, 20, 157, 173, 17, 209, 128, 180, 0, 192, 79, 212, 48, 200]);
    Uuid::from_bytes(b)
}

} // verus!
