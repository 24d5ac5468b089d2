//! Reading raw bytes as text.
use vstd::prelude::*;
use vstd::string::StringSliceAdditionalSpecFns;
use vstd::utf8::valid_utf8;

verus! {

/// The string slice that `bytes` encodes, through `core::str::from_utf8`:
/// the standard library answers `Ok` exactly when the bytes are well-formed
/// UTF-8, and the slice it gives back is made of the same bytes.
#[verifier::external_body]
pub(crate) fn str_from_utf8<'a>(bytes: &'a [u8]) -> (r: Option<&'a str>)
    ensures
        r is Some <==> valid_utf8(bytes@),
        r matches Some(s) ==> s.spec_bytes() == bytes@,
{
    core::str::from_utf8(bytes).ok()
}

/// A vector holding the bytes of `s`.
pub(crate) fn copy_bytes(s: &[u8]) -> (r: Vec<u8>)
    ensures
        r@ == s@,
{
    let mut v: Vec<u8> = Vec::new();
    let mut i: usize = 0;
    while i < s.len()
        invariant
            i <= s@.len(),
            v@ == s@.subrange(0, i as int),
        decreases s@.len() - i,
    {
        v.push(s[i]);
        i = i + 1;
    }
    assert(v@ =~= s@);
    v
}

/// Whether `a` and `b` hold the same bytes.
pub(crate) fn same_bytes(a: &[u8], b: &[u8]) -> (r: bool)
    ensures
        r == (a@ == b@),
{
    if a.len() != b.len() {
        return false;
    }
    let mut i: usize = 0;
    while i < a.len()
        invariant
            a@.len() == b@.len(),
            i <= a@.len(),
            forall|k: int| 0 <= k < i ==> a@[k] == b@[k],
        decreases a@.len() - i,
    {
        if a[i] != b[i] {
            return false;
        }
        i = i + 1;
    }
    assert(a@ =~= b@);
    true
}

/// `needle` occurs in `hay`.
pub open spec fn contains(hay: Seq<u8>, needle: Seq<u8>) -> bool {
    exists|i: int|
        0 <= i && i + needle.len() <= hay.len() && #[trigger] hay.subrange(i, i + needle.len())
            == needle
}

/// Whether `needle` occurs in `hay`.
pub fn contains_bytes(hay: &[u8], needle: &[u8]) -> (r: bool)
    ensures
        r == contains(hay@, needle@),
{
    if needle.len() > hay.len() {
        return false;
    }
    let last = hay.len() - needle.len();
    let mut i: usize = 0;
    loop
        invariant
            last + needle.len() == hay.len(),
            i <= last,
            forall|k: int|
                0 <= k < i ==> #[trigger] hay@.subrange(k, k + needle@.len()) != needle@,
        decreases last - i,
    {
        let window = vstd::slice::slice_subrange(hay, i, i + needle.len());
        if same_bytes(window, needle) {
            return true;
        }
        if i == last {
            return false;
        }
        i = i + 1;
    }
}

/// 16 to the power `k`.
pub open spec fn pow16(k: nat) -> nat
    decreases k,
{
    if k == 0 {
        1
    } else {
        16 * pow16((k - 1) as nat)
    }
}

/// Powers of 16 are positive.
pub proof fn lemma_pow16_positive(k: nat)
    ensures
        pow16(k) > 0,
    decreases k,
{
    if k > 0 {
        lemma_pow16_positive((k - 1) as nat);
    }
}

/// The lowercase hexadecimal digit of `n` (0 to 15).
pub open spec fn hex_digit(n: int) -> u8 {
    if n < 10 {
        (48 + n) as u8
    } else {
        (97 + n - 10) as u8
    }
}

/// `v` written as "0x" and sixteen lowercase hexadecimal digits, the most
/// significant first.
pub open spec fn hex_text(v: u64) -> Seq<u8> {
    seq![48u8, 120u8] + Seq::new(16, |k: int| hex_digit(((v as nat / pow16((15 - k) as nat)) % 16) as int))
}

/// Writes `v` as "0x" and sixteen lowercase hexadecimal digits.
pub fn hex_bytes(v: u64) -> (r: [u8; 18])
    ensures
        r@ == hex_text(v),
{
    let mut buf = [0u8; 18];
    buf[0] = 48;
    buf[1] = 120;
    let mut temp = v;
    let mut j: usize = 0;
    while j < 16
        invariant
            j <= 16,
            buf@.len() == 18,
            buf@[0] == 48u8,
            buf@[1] == 120u8,
            temp == v as nat / pow16(j as nat),
            forall|i: int|
                17 - j < i < 18 ==> #[trigger] buf@[i] == hex_digit(((v as nat / pow16((17 - i) as nat)) % 16) as int),
        decreases 16 - j,
    {
        assert(temp & 0xF == temp % 16) by (bit_vector);
        let nibble = (temp & 0xF) as u8;
        buf[17 - j] = if nibble < 10 {
            48 + nibble
        } else {
            97 + (nibble - 10)
        };
        assert(temp >> 4 == temp / 16) by (bit_vector);
        proof {
            lemma_pow16_positive(j as nat);
            vstd::arithmetic::div_mod::lemma_div_denominator(v as int, pow16(j as nat) as int, 16);
            assert(pow16((j + 1) as nat) == pow16(j as nat) * 16);
        }
        temp = temp >> 4;
        j = j + 1;
    }
    assert(buf@ =~= hex_text(v));
    buf
}

} // verus!
