use vstd::prelude::*;

verus! {

/// The owner key of an encoded caller identity: its last 32 bytes, with
/// zeros in front when the encoding is shorter than that.
pub open spec fn owner_key_of(encoded: Seq<u8>) -> Seq<u8> {
    Seq::new(32, |i: int| if encoded.len() - 32 + i >= 0 { encoded[encoded.len() - 32 + i] } else { 0u8 })
}

/// Derives the fixed-length owner key of an encoded caller identity.
pub fn derive_owner_key(encoded: &Vec<u8>) -> (r: [u8; 32])
    ensures
        r@ == owner_key_of(encoded@),
{
    let mut key: [u8; 32] = [0u8; 32];
    let n: usize = encoded.len();
    let mut i: usize = 0;
    while i < 32
        invariant
            0 <= i <= 32,
            n == encoded@.len(),
            key@.len() == 32,
            forall|j: int| 0 <= j < i ==> key@[j] == owner_key_of(encoded@)[j],
            forall|j: int| i <= j < 32 ==> key@[j] == 0u8,
        decreases 32 - i,
    {
        if n >= 32 - i {
            key[i] = encoded[n - (32 - i)];
        }
        i = i + 1;
    }
    assert(key@ =~= owner_key_of(encoded@));
    key
}

/// Whether two keys hold the same bytes.
pub fn keys_equal(a: &[u8; 32], b: &[u8; 32]) -> (r: bool)
    ensures
        r == (a@ == b@),
{
    let mut i: usize = 0;
    while i < 32
        invariant
            0 <= i <= 32,
            a@.len() == 32,
            b@.len() == 32,
            forall|j: int| 0 <= j < i ==> a@[j] == b@[j],
        decreases 32 - i,
    {
        if a[i] != b[i] {
            return false;
        }
        i = i + 1;
    }
    assert(a@ =~= b@);
    true
}

} // verus!
