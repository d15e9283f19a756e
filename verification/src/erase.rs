use vstd::prelude::*;
use vstd::utf8::encode_utf8;
use zeroize::Zeroize;

verus! {

/// Relies on `zeroize::Zeroize for [u8]`: overwrites every element of the
/// slice with zero through volatile writes, so the stores cannot be
/// optimized away. The vector keeps its length.
#[verifier::external_body]
fn zeroize_bytes(data: &mut Vec<u8>)
    ensures
        final(data)@.len() == old(data)@.len(),
        forall|i: int| 0 <= i < final(data)@.len() ==> final(data)@[i] == 0u8,
{
    data.as_mut_slice().zeroize();
}

/// Relies on `zeroize::Zeroize for [u8; 32]`: overwrites every byte of the
/// array with zero through volatile writes that the compiler must not elide.
#[verifier::external_body]
pub(crate) fn zeroize_key(key: &mut [u8; 32])
    ensures
        forall|i: int| 0 <= i < 32 ==> final(key)@[i] == 0u8,
{
    key.zeroize();
}

/// Relies on `zeroize::Zeroize for [u64]`: overwrites every element of the
/// slice with zero through volatile writes, so the stores cannot be
/// optimized away. The vector keeps its length.
#[verifier::external_body]
fn zeroize_words(data: &mut Vec<u64>)
    ensures
        final(data)@.len() == old(data)@.len(),
        forall|i: int| 0 <= i < final(data)@.len() ==> final(data)@[i] == 0u64,
{
    data.as_mut_slice().zeroize();
}

/// Zero-fill of a sensitive buffer: after the call every byte of the
/// buffer's storage is zero, whatever it held before, and the writes are
/// guaranteed not to be elided by optimization. Cannot fail.
pub fn secure_erase(data: &mut Vec<u8>)
    ensures
        final(data)@.len() == old(data)@.len(),
        forall|i: int| 0 <= i < final(data)@.len() ==> final(data)@[i] == 0u8,
{
    zeroize_bytes(data);
}

/// Zero-fill for word-sized storage: after the call every element of the
/// buffer is zero, whatever it held before, through writes that are
/// guaranteed not to be elided by optimization. Cannot fail.
pub fn secure_erase_words(data: &mut Vec<u64>)
    ensures
        final(data)@.len() == old(data)@.len(),
        forall|i: int| 0 <= i < final(data)@.len() ==> final(data)@[i] == 0u64,
{
    zeroize_words(data);
}

/// Relies on `zeroize::Zeroize for str`: overwrites every byte of the
/// string's contents in place with zero through volatile writes. A zeroed
/// byte is the one-byte UTF-8 sequence for U+0000, so the string keeps its
/// length in bytes and afterwards holds one NUL character per byte of the
/// original encoding.
#[verifier::external_body]
fn zeroize_str(s: &mut String)
    ensures
        final(s)@ == Seq::new(encode_utf8(old(s)@).len(), |i: int| '\0'),
{
    s.as_mut_str().zeroize();
}

/// Zero-fill for textual storage: after the call every byte of the
/// string's backing storage is zero, whatever it held before, through
/// writes that are guaranteed not to be elided by optimization; the string
/// becomes a run of NUL characters, one per byte of the prior encoding.
/// Cannot fail.
pub fn secure_erase_string(s: &mut String)
    ensures
        final(s)@ == Seq::new(encode_utf8(old(s)@).len(), |i: int| '\0'),
{
    zeroize_str(s);
}

} // verus!
