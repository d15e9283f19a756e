use vstd::prelude::*;

verus! {

/// Number of bytes of key material a guard holds.
pub const KEY_LEN: usize = 32;

/// The repeating-key XOR transform: byte `i` of the result is byte `i` of
/// `data` combined with key byte `i % KEY_LEN`. The key byte is chosen
/// deterministically from the position, which makes the transform
/// self-inverting: applying it twice with the same key restores the data.
pub open spec fn mask_seq(data: Seq<u8>, key: Seq<u8>) -> Seq<u8> {
    Seq::new(data.len(), |i: int| data[i] ^ key[i % (KEY_LEN as int)])
}

/// Masking with a fixed key is an involution: a second application with the
/// same key restores every byte of the original buffer.
pub proof fn lemma_mask_involutive(data: Seq<u8>, key: Seq<u8>)
    requires
        key.len() == KEY_LEN,
    ensures
        mask_seq(mask_seq(data, key), key) == data,
{
    let twice = mask_seq(mask_seq(data, key), key);
    assert forall|i: int| 0 <= i < data.len() implies twice[i] == data[i] by {
        let b = data[i];
        let k = key[i % (KEY_LEN as int)];
        assert((b ^ k) ^ k == b) by (bit_vector);
    }
    assert(twice =~= data);
}

} // verus!
