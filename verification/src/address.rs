//! Hardware addresses and the broadcast sentinel.

use vstd::prelude::*;

verus! {

/// The reserved destination address delivered to every listener on the
/// active channel.
pub open spec fn spec_broadcast_address() -> Seq<u8> {
    seq![0xffu8, 0xffu8, 0xffu8, 0xffu8, 0xffu8, 0xffu8]
}

/// The broadcast sentinel as a concrete 6-byte address.
pub fn broadcast_address() -> (r: [u8; 6])
    ensures
        r@ == spec_broadcast_address(),
{
    let r: [u8; 6] = [0xff, 0xff, 0xff, 0xff, 0xff, 0xff];
    proof {
        assert(r@ =~= spec_broadcast_address());
    }
    r
}

/// Byte-wise equality of two hardware addresses.
pub fn addresses_equal(a: &[u8; 6], b: &[u8; 6]) -> (r: bool)
    ensures
        r <==> a@ == b@,
{
    let r = a[0] == b[0] && a[1] == b[1] && a[2] == b[2] && a[3] == b[3] && a[4] == b[4]
        && a[5] == b[5];
    proof {
        if r {
            assert(a@ =~= b@);
        }
    }
    r
}

} // verus!
