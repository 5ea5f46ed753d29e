//! The bit-exact fingerprint of a result vector.
//!
//! Every sample is consumed as its raw IEEE-754 bit pattern, so the digest
//! distinguishes positive and negative zero, NaN payloads and denormals that a
//! tolerance comparison would conflate. The mixing hash is pinned to FNV-1a
//! with a 64-bit state — a fully specified, language-independent construction,
//! not a host hasher whose algorithm is an implementation detail — and the
//! digest is rendered as exactly 16 lowercase hexadecimal characters.

use vstd::prelude::*;

verus! {

/// The FNV-1a 64-bit offset basis: the hash state before any byte is mixed,
/// and therefore the digest value of an empty vector.
pub const FNV_OFFSET_BASIS: u64 = 0xcbf29ce484222325;

/// The FNV-1a 64-bit prime.
pub const FNV_PRIME: u64 = 0x100000001b3;

/// One FNV-1a step: xor one byte into the state, then multiply by the prime,
/// keeping the low 64 bits of the product.
pub open spec fn fnv_mix_byte(h: u64, b: u64) -> u64 {
    vstd::wrapping::u64_specs::wrapping_mul(h ^ b, FNV_PRIME)
}

/// Byte `j` of `v`, least significant byte first.
pub open spec fn byte_of(v: u64, j: int) -> u64 {
    (v >> ((8 * j) as u64)) & 0xff
}

/// The hash state after mixing the first `j` bytes of `v` into `h`, least
/// significant byte first.
pub open spec fn fnv_mix_bytes(h: u64, v: u64, j: int) -> u64
    decreases j,
{
    if j <= 0 {
        h
    } else {
        fnv_mix_byte(fnv_mix_bytes(h, v, j - 1), byte_of(v, j - 1))
    }
}

/// The hash state after mixing one whole 64-bit pattern into `h`: its eight
/// bytes, least significant first.
pub open spec fn fnv_mix_u64(h: u64, v: u64) -> u64 {
    fnv_mix_bytes(h, v, 8)
}

/// The FNV-1a state after absorbing every pattern of `s` in order, starting
/// from the offset basis: the 64-bit digest of `s`.
pub open spec fn fnv1a_of(s: Seq<u64>) -> u64
    decreases s.len(),
{
    if s.len() == 0 {
        FNV_OFFSET_BASIS
    } else {
        fnv_mix_u64(fnv1a_of(s.drop_last()), s.last())
    }
}

/// The lowercase hexadecimal digit character for `d`, which must lie below 16.
pub open spec fn hex_digit(d: u64) -> char {
    if d == 0 {
        '0'
    } else if d == 1 {
        '1'
    } else if d == 2 {
        '2'
    } else if d == 3 {
        '3'
    } else if d == 4 {
        '4'
    } else if d == 5 {
        '5'
    } else if d == 6 {
        '6'
    } else if d == 7 {
        '7'
    } else if d == 8 {
        '8'
    } else if d == 9 {
        '9'
    } else if d == 10 {
        'a'
    } else if d == 11 {
        'b'
    } else if d == 12 {
        'c'
    } else if d == 13 {
        'd'
    } else if d == 14 {
        'e'
    } else {
        'f'
    }
}

/// Nibble `i` of `v`, most significant nibble first.
pub open spec fn nibble(v: u64, i: int) -> u64 {
    (v >> ((60 - 4 * i) as u64)) & 0xf
}

/// The 16-character lowercase hexadecimal rendering of `v`, most significant
/// nibble first, with leading zeros kept.
pub open spec fn hex16(v: u64) -> Seq<char> {
    Seq::new(16, |i: int| hex_digit(nibble(v, i)))
}

/// Distinct digit values below 16 render as distinct characters.
proof fn lemma_hex_digit_injective(d1: u64, d2: u64)
    requires
        d1 < 16,
        d2 < 16,
        hex_digit(d1) == hex_digit(d2),
    ensures
        d1 == d2,
{
}

/// The one-character string for the hexadecimal digit `d`.
fn hex_digit_str(d: u64) -> (r: &'static str)
    requires
        d < 16,
    ensures
        r@.len() == 1,
        r@[0] == hex_digit(d),
{
    proof {
        reveal_strlit("0");
        reveal_strlit("1");
        reveal_strlit("2");
        reveal_strlit("3");
        reveal_strlit("4");
        reveal_strlit("5");
        reveal_strlit("6");
        reveal_strlit("7");
        reveal_strlit("8");
        reveal_strlit("9");
        reveal_strlit("a");
        reveal_strlit("b");
        reveal_strlit("c");
        reveal_strlit("d");
        reveal_strlit("e");
        reveal_strlit("f");
    }
    if d == 0 {
        "0"
    } else if d == 1 {
        "1"
    } else if d == 2 {
        "2"
    } else if d == 3 {
        "3"
    } else if d == 4 {
        "4"
    } else if d == 5 {
        "5"
    } else if d == 6 {
        "6"
    } else if d == 7 {
        "7"
    } else if d == 8 {
        "8"
    } else if d == 9 {
        "9"
    } else if d == 10 {
        "a"
    } else if d == 11 {
        "b"
    } else if d == 12 {
        "c"
    } else if d == 13 {
        "d"
    } else if d == 14 {
        "e"
    } else {
        "f"
    }
}

/// Renders `v` as exactly 16 lowercase hexadecimal characters, most
/// significant nibble first.
pub fn to_hex16(v: u64) -> (r: String)
    ensures
        r@ == hex16(v),
        r@.len() == 16,
{
    let mut s = String::new();
    let mut i: usize = 0;
    while i < 16
        invariant
            i <= 16,
            s@ == hex16(v).take(i as int),
        decreases 16 - i,
    {
        let sh: u64 = 60 - 4 * (i as u64);
        let d: u64 = (v >> sh) & 0xf;
        assert((v >> sh) & 0xf < 16) by (bit_vector);
        let ds = hex_digit_str(d);
        s.append(ds);
        proof {
            assert(hex16(v)[i as int] == hex_digit(d));
            assert(s@ =~= hex16(v).take(i as int + 1));
        }
        i = i + 1;
    }
    proof {
        assert(hex16(v).take(16) =~= hex16(v));
    }
    s
}

/// The 64-bit digest of a result vector given as bit patterns: FNV-1a over
/// the patterns in order. Identical pattern sequences always yield identical
/// digests; the function neither rounds nor compares with tolerance.
pub fn digest_bits(samples: &Vec<u64>) -> (r: u64)
    ensures
        r == fnv1a_of(samples@),
{
    let mut h: u64 = FNV_OFFSET_BASIS;
    let mut i: usize = 0;
    while i < samples.len()
        invariant
            i <= samples@.len(),
            h == fnv1a_of(samples@.take(i as int)),
        decreases samples@.len() - i,
    {
        let v = samples[i];
        let mut j: usize = 0;
        while j < 8
            invariant
                j <= 8,
                i < samples@.len(),
                v == samples@[i as int],
                h == fnv_mix_bytes(fnv1a_of(samples@.take(i as int)), v, j as int),
            decreases 8 - j,
        {
            let sh: u64 = 8 * (j as u64);
            let b: u64 = (v >> sh) & 0xff;
            proof {
                assert(b == byte_of(v, j as int));
            }
            h = (h ^ b).wrapping_mul(FNV_PRIME);
            j = j + 1;
        }
        proof {
            assert(samples@.take(i as int + 1).drop_last() =~= samples@.take(i as int));
            assert(samples@.take(i as int + 1).last() == samples@[i as int]);
        }
        i = i + 1;
    }
    proof {
        assert(samples@.take(samples@.len() as int) =~= samples@);
    }
    h
}

/// The rendering loses nothing: two 64-bit digests with the same
/// 16-character fingerprint are the same digest, so fingerprints distinguish
/// digests exactly as the digests themselves do.
pub proof fn lemma_hex16_injective(a: u64, b: u64)
    requires
        hex16(a) == hex16(b),
    ensures
        a == b,
{
    assert forall|i: int| 0 <= i < 16 implies nibble(a, i) == nibble(b, i) by {
        assert(hex16(a)[i] == hex16(b)[i]);
        assert(hex16(a)[i] == hex_digit(nibble(a, i)));
        assert(hex16(b)[i] == hex_digit(nibble(b, i)));
        let s: u64 = (60 - 4 * i) as u64;
        assert((a >> s) & 0xf < 16) by (bit_vector);
        assert((b >> s) & 0xf < 16) by (bit_vector);
        lemma_hex_digit_injective(nibble(a, i), nibble(b, i));
    }
    assert(nibble(a, 0) == (a >> 60u64) & 0xf);
    assert(nibble(a, 1) == (a >> 56u64) & 0xf);
    assert(nibble(a, 2) == (a >> 52u64) & 0xf);
    assert(nibble(a, 3) == (a >> 48u64) & 0xf);
    assert(nibble(a, 4) == (a >> 44u64) & 0xf);
    assert(nibble(a, 5) == (a >> 40u64) & 0xf);
    assert(nibble(a, 6) == (a >> 36u64) & 0xf);
    assert(nibble(a, 7) == (a >> 32u64) & 0xf);
    assert(nibble(a, 8) == (a >> 28u64) & 0xf);
    assert(nibble(a, 9) == (a >> 24u64) & 0xf);
    assert(nibble(a, 10) == (a >> 20u64) & 0xf);
    assert(nibble(a, 11) == (a >> 16u64) & 0xf);
    assert(nibble(a, 12) == (a >> 12u64) & 0xf);
    assert(nibble(a, 13) == (a >> 8u64) & 0xf);
    assert(nibble(a, 14) == (a >> 4u64) & 0xf);
    assert(nibble(a, 15) == (a >> 0u64) & 0xf);
    assert((a >> 60u64) & 0xf == (b >> 60u64) & 0xf && (a >> 56u64) & 0xf == (b >> 56u64) & 0xf
        && (a >> 52u64) & 0xf == (b >> 52u64) & 0xf && (a >> 48u64) & 0xf == (b >> 48u64) & 0xf
        && (a >> 44u64) & 0xf == (b >> 44u64) & 0xf && (a >> 40u64) & 0xf == (b >> 40u64) & 0xf
        && (a >> 36u64) & 0xf == (b >> 36u64) & 0xf && (a >> 32u64) & 0xf == (b >> 32u64) & 0xf
        && (a >> 28u64) & 0xf == (b >> 28u64) & 0xf && (a >> 24u64) & 0xf == (b >> 24u64) & 0xf
        && (a >> 20u64) & 0xf == (b >> 20u64) & 0xf && (a >> 16u64) & 0xf == (b >> 16u64) & 0xf
        && (a >> 12u64) & 0xf == (b >> 12u64) & 0xf && (a >> 8u64) & 0xf == (b >> 8u64) & 0xf
        && (a >> 4u64) & 0xf == (b >> 4u64) & 0xf && (a >> 0u64) & 0xf == (b >> 0u64) & 0xf ==> a
        == b) by (bit_vector);
}

/// The fingerprint of a result vector given as bit patterns: its 64-bit
/// digest rendered as a 16-character lowercase hexadecimal string.
pub fn fingerprint_bits(samples: &Vec<u64>) -> (r: String)
    ensures
        r@ == hex16(fnv1a_of(samples@)),
        r@.len() == 16,
{
    let h = digest_bits(samples);
    to_hex16(h)
}

} // verus!
