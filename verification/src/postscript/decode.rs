//! The eexec and charstring decryption of Type 1 font programs.

use vstd::prelude::*;
use vstd::wrapping::u16_specs::{wrapping_add, wrapping_mul};

verus! {

/// The multiplier of the Type 1 encryption key schedule
pub const C1: u16 = 52845;

/// The increment of the Type 1 encryption key schedule
pub const C2: u16 = 22719;

/// The key that follows `r` once the cipher byte `c` has been consumed:
/// (c + r) * c1 + c2, modulo 2^16.
pub open spec fn next_key(c: u8, r: u16) -> u16 {
    wrapping_add(wrapping_mul(wrapping_add(c as u16, r), C1), C2)
}

/// The plaintext of `cipher` under the initial key `r`: each byte is the
/// cipher byte xor the high byte of the current key.
pub open spec fn spec_decrypt(cipher: Seq<u8>, r: u16) -> Seq<u8>
    decreases cipher.len(),
{
    if cipher.len() == 0 {
        Seq::empty()
    } else {
        seq![cipher[0] ^ ((r >> 8u16) as u8)] + spec_decrypt(cipher.drop_first(), next_key(cipher[0], r))
    }
}

/// The initial key of eexec encryption
pub open spec fn eexec_key() -> u16 {
    55665
}

/// The initial key of charstring encryption
pub open spec fn charstring_key() -> u16 {
    4330
}

proof fn lemma_decrypt_len(cipher: Seq<u8>, r: u16)
    ensures
        spec_decrypt(cipher, r).len() == cipher.len(),
    decreases cipher.len(),
{
    if cipher.len() > 0 {
        lemma_decrypt_len(cipher.drop_first(), next_key(cipher[0], r));
    }
}

/// Decrypts `cipher` starting from the key `r`.
pub fn decrypt_inner(cipher: &[u8], r: u16) -> (decoded: Vec<u8>)
    ensures
        decoded@ == spec_decrypt(cipher@, r),
        decoded@.len() == cipher@.len(),
{
    let mut decoded: Vec<u8> = Vec::new();
    let mut r = r;
    let ghost r0 = r;
    let mut i: usize = 0;
    proof {
        assert(cipher@.skip(0) =~= cipher@);
    }
    while i < cipher.len()
        invariant
            i <= cipher@.len(),
            decoded@ + spec_decrypt(cipher@.skip(i as int), r) == spec_decrypt(cipher@, r0),
        decreases cipher@.len() - i,
    {
        let c = cipher[i];
        let ghost rest = cipher@.skip(i as int);
        assert(rest[0] == c);
        assert(rest.drop_first() =~= cipher@.skip(i + 1));
        let ghost before = decoded@;
        let ghost r_old = r;
        decoded.push(c ^ (r >> 8) as u8);
        r = (c as u16).wrapping_add(r).wrapping_mul(C1).wrapping_add(C2);
        assert(r == next_key(c, r_old));
        assert(spec_decrypt(rest, r_old) == seq![c ^ ((r_old >> 8u16) as u8)] + spec_decrypt(rest.drop_first(), r));
        assert(decoded@ + spec_decrypt(cipher@.skip(i + 1), r) =~= before + spec_decrypt(rest, r_old));
        i = i + 1;
    }
    proof {
        assert(cipher@.skip(i as int) =~= Seq::<u8>::empty());
        assert(decoded@ + Seq::<u8>::empty() =~= decoded@);
        lemma_decrypt_len(cipher@, r0);
    }
    decoded
}

/// Decrypts an eexec-encrypted section.
pub fn decrypt(cipher: &[u8]) -> (decoded: Vec<u8>)
    ensures
        decoded@ == spec_decrypt(cipher@, eexec_key()),
        decoded@.len() == cipher@.len(),
{
    decrypt_inner(cipher, 55665)
}

/// Decrypts a charstring.
pub fn decrypt_charstring(cipher: &[u8]) -> (decoded: Vec<u8>)
    ensures
        decoded@ == spec_decrypt(cipher@, charstring_key()),
        decoded@.len() == cipher@.len(),
{
    decrypt_inner(cipher, 4330)
}

/// Decryption works byte by byte: the plaintext of the first `n` bytes of a
/// ciphertext is the first `n` bytes of its plaintext.
pub proof fn lemma_decrypt_prefix(cipher: Seq<u8>, r: u16, n: int)
    requires
        0 <= n <= cipher.len(),
    ensures
        spec_decrypt(cipher.take(n), r) == spec_decrypt(cipher, r).take(n),
    decreases cipher.len(),
{
    lemma_decrypt_len(cipher, r);
    lemma_decrypt_len(cipher.take(n), r);
    if n > 0 {
        let rest = cipher.drop_first();
        assert(cipher.take(n).drop_first() =~= rest.take(n - 1));
        lemma_decrypt_prefix(rest, next_key(cipher[0], r), n - 1);
        assert(spec_decrypt(cipher.take(n), r) =~= spec_decrypt(cipher, r).take(n));
    } else {
        assert(spec_decrypt(cipher.take(n), r) =~= spec_decrypt(cipher, r).take(n));
    }
}

/// The key after the bytes of `cipher` have been consumed from the key `r`
pub open spec fn key_after(cipher: Seq<u8>, r: u16) -> u16
    decreases cipher.len(),
{
    if cipher.len() == 0 {
        r
    } else {
        key_after(cipher.drop_first(), next_key(cipher[0], r))
    }
}

/// Decrypting two pieces one after the other, the second from the key that
/// the first leaves, gives the plaintext of the whole.
pub proof fn lemma_decrypt_concat(a: Seq<u8>, b: Seq<u8>, r: u16)
    ensures
        spec_decrypt(a + b, r) == spec_decrypt(a, r) + spec_decrypt(b, key_after(a, r)),
    decreases a.len(),
{
    if a.len() == 0 {
        assert(a + b =~= b);
        assert(spec_decrypt(a, r) + spec_decrypt(b, r) =~= spec_decrypt(b, r));
    } else {
        let k = next_key(a[0], r);
        assert((a + b).drop_first() =~= a.drop_first() + b);
        assert((a + b)[0] == a[0]);
        lemma_decrypt_concat(a.drop_first(), b, k);
        assert(spec_decrypt(a + b, r) =~= spec_decrypt(a, r) + spec_decrypt(b, key_after(a, r)));
    }
}

/// The key schedule: after the cipher byte `c`, the key `r` becomes
/// (c + r) * 52845 + 22719, modulo 2^16.
pub proof fn lemma_next_key_formula(c: u8, r: u16)
    ensures
        next_key(c, r) as int == ((c + r) * 52845 + 22719) % 0x1_0000,
{
    let m: int = 0x1_0000;
    let a: int = (c + r) % m;
    assert(wrapping_add(c as u16, r) as int == a) by {
        if c + r >= m {
            vstd::arithmetic::div_mod::lemma_small_mod((c + r - m) as nat, m as nat);
            vstd::arithmetic::div_mod::lemma_mod_sub_multiples_vanish(c + r, m);
        } else {
            vstd::arithmetic::div_mod::lemma_small_mod((c + r) as nat, m as nat);
        }
    }
    let b: int = (a * 52845) % m;
    assert(wrapping_mul(a as u16, C1) as int == b);
    vstd::arithmetic::div_mod::lemma_mul_mod_noop_left(c + r, 52845, m);
    assert(b == ((c + r) * 52845) % m);
    vstd::arithmetic::div_mod::lemma_add_mod_noop((c + r) * 52845, 22719, m);
    vstd::arithmetic::div_mod::lemma_small_mod(22719, m as nat);
    vstd::arithmetic::div_mod::lemma_mod_bound(b + 22719, m);
    vstd::arithmetic::div_mod::lemma_small_mod(b as nat, m as nat);
    if b + 22719 >= m {
        vstd::arithmetic::div_mod::lemma_mod_sub_multiples_vanish(b + 22719, m);
        vstd::arithmetic::div_mod::lemma_small_mod((b + 22719 - m) as nat, m as nat);
    } else {
        vstd::arithmetic::div_mod::lemma_small_mod((b + 22719) as nat, m as nat);
    }
}

proof fn lemma_key_after_concat(a: Seq<u8>, b: Seq<u8>, r: u16)
    ensures
        key_after(a + b, r) == key_after(b, key_after(a, r)),
    decreases a.len(),
{
    if a.len() == 0 {
        assert(a + b =~= b);
    } else {
        assert((a + b).drop_first() =~= a.drop_first() + b);
        assert((a + b)[0] == a[0]);
        lemma_key_after_concat(a.drop_first(), b, next_key(a[0], r));
    }
}

/// Byte `i` of the plaintext is byte `i` of the ciphertext xor the high byte
/// of the key at that point; the key starts at `r` and after each cipher
/// byte `c` becomes `next_key(c, key)` (see `lemma_next_key_formula`).
pub proof fn lemma_decrypt_bytes(cipher: Seq<u8>, r: u16, i: int)
    requires
        0 <= i < cipher.len(),
    ensures
        spec_decrypt(cipher, r).len() == cipher.len(),
        spec_decrypt(cipher, r)[i] == cipher[i] ^ ((key_after(cipher.take(i), r) >> 8u16) as u8),
        key_after(cipher.take(i + 1), r) == next_key(cipher[i], key_after(cipher.take(i), r)),
        key_after(cipher.take(0), r) == r,
{
    lemma_decrypt_len(cipher, r);
    let a = cipher.take(i);
    let b = cipher.skip(i);
    assert(a + b =~= cipher);
    lemma_decrypt_concat(a, b, r);
    lemma_decrypt_len(a, r);
    let k = key_after(a, r);
    assert(spec_decrypt(b, k)[0] == b[0] ^ ((k >> 8u16) as u8));
    assert(spec_decrypt(cipher, r)[i] == spec_decrypt(b, k)[0]);
    lemma_key_after_step(cipher, r, i);
    assert(cipher.take(0) =~= Seq::<u8>::empty());
}

proof fn lemma_key_after_step(cipher: Seq<u8>, r: u16, i: int)
    requires
        0 <= i < cipher.len(),
    ensures
        key_after(cipher.take(i + 1), r) == next_key(cipher[i], key_after(cipher.take(i), r)),
{
    let a = cipher.take(i);
    let one = seq![cipher[i]];
    assert(cipher.take(i + 1) =~= a + one);
    lemma_key_after_concat(a, one, r);
    let k = key_after(a, r);
    assert(one.drop_first() =~= Seq::<u8>::empty());
    assert(key_after(one, k) == key_after(one.drop_first(), next_key(one[0], k)));
}

} // verus!
