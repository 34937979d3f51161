//! Byte strings fed to the hash: the role tags and concatenation.
use vstd::prelude::*;

verus! {

/// The ASCII bytes of `client`.
pub open spec fn client_tag() -> Seq<u8> {
    seq![0x63u8, 0x6c, 0x69, 0x65, 0x6e, 0x74]
}

/// The ASCII bytes of `server`.
pub open spec fn server_tag() -> Seq<u8> {
    seq![0x73u8, 0x65, 0x72, 0x76, 0x65, 0x72]
}

/// The tag of one role.
pub open spec fn role_tag(client: bool) -> Seq<u8> {
    if client {
        client_tag()
    } else {
        server_tag()
    }
}

/// A fresh buffer holding the tag of one role.
pub(crate) fn tag_bytes(client: bool) -> (r: Vec<u8>)
    ensures
        r@ == role_tag(client),
{
    let r = if client {
        vec![0x63u8, 0x6c, 0x69, 0x65, 0x6e, 0x74]
    } else {
        vec![0x73u8, 0x65, 0x72, 0x76, 0x65, 0x72]
    };
    assert(r@ =~= role_tag(client));
    r
}

/// Appends `b` to `v`.
pub(crate) fn append_bytes(v: &mut Vec<u8>, b: &[u8])
    ensures
        final(v)@ == old(v)@ + b@,
{
    v.extend_from_slice(b);
    assert(final(v)@ =~= old(v)@ + b@);
}

/// Whether two 32-byte strings are equal.
pub(crate) fn bytes_eq(a: &[u8; 32], b: &[u8; 32]) -> (r: bool)
    ensures
        r == (a@ == b@),
{
    let mut i: usize = 0;
    while i < 32
        invariant
            i <= 32,
            forall|j: int| 0 <= j < i ==> a@[j] == b@[j],
        decreases 32 - i,
    {
        if a[i] != b[i] {
            return false;
        }
        i = i + 1;
    }
    assert(a@ =~= b@);
    true
}

} // verus!
