use vstd::prelude::*;

verus! {

/// Byte `j` (most significant first, `0 <= j < 8`) of the big-endian
/// encoding of `n`.
pub open spec fn be_byte(n: u64, j: int) -> u8 {
    ((n >> (((7 - j) * 8) as u64)) & 0xff) as u8
}

/// The 32-byte fingerprint derived from sub-seed `n`: 24 zero bytes
/// followed by the 8 big-endian bytes of `n`.
pub open spec fn fingerprint_spec(n: u64) -> Seq<u8> {
    Seq::new(32, |i: int| if i < 24 { 0u8 } else { be_byte(n, i - 24) })
}

/// Builds the 32-byte fingerprint of sub-seed `n`.
pub fn fingerprint_bytes(n: u64) -> (r: Vec<u8>)
    ensures
        r@ == fingerprint_spec(n),
        r@.len() == 32,
{
    let mut v: Vec<u8> = Vec::new();
    let mut i: usize = 0;
    while i < 24
        invariant
            i <= 24,
            v@.len() == i,
            forall|k: int| 0 <= k < i ==> v@[k] == 0u8,
        decreases 24 - i,
    {
        v.push(0u8);
        i += 1;
    }
    let mut j: usize = 0;
    while j < 8
        invariant
            j <= 8,
            v@.len() == 24 + j,
            forall|k: int| 0 <= k < 24 ==> v@[k] == 0u8,
            forall|k: int| 24 <= k < 24 + j ==> v@[k] == be_byte(n, k - 24),
        decreases 8 - j,
    {
        let shift: u64 = ((7 - j) * 8) as u64;
        let b: u8 = ((n >> shift) & 0xff) as u8;
        assert(b == be_byte(n, j as int));
        v.push(b);
        j += 1;
    }
    assert(v@ =~= fingerprint_spec(n));
    v
}

/// Two values with the same big-endian bytes are equal.
pub proof fn lemma_be_bytes_injective(a: u64, b: u64)
    requires
        forall|j: int| 0 <= j < 8 ==> be_byte(a, j) == be_byte(b, j),
    ensures
        a == b,
{
    assert(be_byte(a, 0) == be_byte(b, 0));
    assert(be_byte(a, 1) == be_byte(b, 1));
    assert(be_byte(a, 2) == be_byte(b, 2));
    assert(be_byte(a, 3) == be_byte(b, 3));
    assert(be_byte(a, 4) == be_byte(b, 4));
    assert(be_byte(a, 5) == be_byte(b, 5));
    assert(be_byte(a, 6) == be_byte(b, 6));
    assert(be_byte(a, 7) == be_byte(b, 7));
    assert(a == b) by (bit_vector)
        requires
            ((a >> 56u64) & 0xff) as u8 == ((b >> 56u64) & 0xff) as u8,
            ((a >> 48u64) & 0xff) as u8 == ((b >> 48u64) & 0xff) as u8,
            ((a >> 40u64) & 0xff) as u8 == ((b >> 40u64) & 0xff) as u8,
            ((a >> 32u64) & 0xff) as u8 == ((b >> 32u64) & 0xff) as u8,
            ((a >> 24u64) & 0xff) as u8 == ((b >> 24u64) & 0xff) as u8,
            ((a >> 16u64) & 0xff) as u8 == ((b >> 16u64) & 0xff) as u8,
            ((a >> 8u64) & 0xff) as u8 == ((b >> 8u64) & 0xff) as u8,
            ((a >> 0u64) & 0xff) as u8 == ((b >> 0u64) & 0xff) as u8,
    ;
}

/// Distinct sub-seeds have distinct fingerprints.
pub proof fn lemma_fingerprint_injective(a: u64, b: u64)
    requires
        fingerprint_spec(a) == fingerprint_spec(b),
    ensures
        a == b,
{
    assert forall|j: int| 0 <= j < 8 implies be_byte(a, j) == be_byte(b, j) by {
        assert(fingerprint_spec(a)[24 + j] == be_byte(a, j));
        assert(fingerprint_spec(b)[24 + j] == be_byte(b, j));
        assert(fingerprint_spec(a)[24 + j] == fingerprint_spec(b)[24 + j]);
    }
    lemma_be_bytes_injective(a, b);
}

} // verus!
