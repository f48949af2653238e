//! The X11 bridge's request: a server-interpreted host entry for the X server's access list.
//!
//! The entry is inserted with a `ChangeHosts` request; it adds to the list and never
//! replaces it.
use vstd::prelude::*;
use vstd::string::StringSliceAdditionalSpecFns;
use vstd::utf8::encode_utf8;

verus! {

/// The address of a server-interpreted entry: the type tag, a NUL byte, then the value,
/// in UTF-8 (e.g. `localuser\0alice`).
pub open spec fn host_entry(type_tag: Seq<char>, value: Seq<char>) -> Seq<u8> {
    encode_utf8(type_tag) + seq![0u8] + encode_utf8(value)
}

fn push_bytes(out: &mut Vec<u8>, s: &str)
    ensures
        final(out)@ == old(out)@ + encode_utf8(s@),
{
    let bytes = s.as_bytes();
    let mut i: usize = 0;
    while i < bytes.len()
        invariant
            i <= bytes@.len(),
            bytes@ == s.spec_bytes(),
            out@ == old(out)@ + bytes@.subrange(0, i as int),
        decreases bytes@.len() - i,
    {
        out.push(bytes[i]);
        i = i + 1;
        assert(out@ =~= old(out)@ + bytes@.subrange(0, i as int));
    }
    assert(bytes@.subrange(0, bytes@.len() as int) =~= bytes@);
}

/// The address bytes of the host entry `type_tag`/`value`.
pub fn x11_host_address(type_tag: &str, value: &str) -> (r: Vec<u8>)
    ensures
        r@ == host_entry(type_tag@, value@),
{
    let mut r: Vec<u8> = Vec::new();
    push_bytes(&mut r, type_tag);
    r.push(0u8);
    push_bytes(&mut r, value);
    assert(r@ =~= host_entry(type_tag@, value@));
    r
}

} // verus!
