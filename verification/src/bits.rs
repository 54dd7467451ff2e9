//! Bit-level model of the library: floor(log2), fixed-width MSB-first binary
//! encodings, packing of bit buffers into bytes, and byte-wise XOR, together
//! with the executable formatting helpers built on them.

use vstd::prelude::*;

use vstd::arithmetic::power2::{
    lemma2_to64, lemma2_to64_rest, lemma_pow2_strictly_increases, lemma_pow2_unfold, pow2,
};

use crate::errors::UtilsError;

verus! {

/// floor(log2(n)) for n >= 1; 0 for n == 0.
pub open spec fn spec_floor_log2(n: nat) -> nat
    decreases n,
{
    if n < 2 {
        0
    } else {
        1 + spec_floor_log2(n / 2)
    }
}

/// Number of significant binary digits of `n`, counting one digit for zero
/// (zero is written as a single "0").
pub open spec fn sig_bits(n: nat) -> nat {
    spec_floor_log2(n) + 1
}

/// The number of unbiased bits per draw is exactly floor(log2) of the range:
/// for every range >= 1, the cutoff 2^floor_log2(range) is the largest power
/// of two not exceeding the range.
pub proof fn lemma_floor_log2_bounds(n: nat)
    requires
        n >= 1,
    ensures
        pow2(spec_floor_log2(n)) <= n,
        n < pow2(spec_floor_log2(n) + 1),
    decreases n,
{
    lemma2_to64();
    if n < 2 {
    } else {
        lemma_floor_log2_bounds(n / 2);
        lemma_pow2_unfold(spec_floor_log2(n));
        lemma_pow2_unfold(spec_floor_log2(n) + 1);
        assert(2 * (n / 2) <= n && n < 2 * (n / 2) + 2);
    }
}

/// floor(log2) of a `u64` is below 64.
pub proof fn lemma_floor_log2_u64(n: nat)
    requires
        1 <= n <= u64::MAX,
    ensures
        spec_floor_log2(n) <= 63,
{
    lemma_floor_log2_bounds(n);
    if spec_floor_log2(n) > 63 {
        lemma2_to64_rest();
        lemma_pow2_strictly_increases(64, spec_floor_log2(n));
    }
}

/// Computes floor(log2(range)).
pub fn floor_log2(range: u64) -> (r: u32)
    requires
        range >= 1,
    ensures
        r == spec_floor_log2(range as nat),
        r <= 63,
{
    let mut x: u64 = range;
    let mut r: u32 = 0;
    while x >= 2
        invariant
            x >= 1,
            r <= 63,
            spec_floor_log2(range as nat) == r + spec_floor_log2(x as nat),
        decreases x,
    {
        proof {
            lemma_floor_log2_helper(range as nat, x as nat, r as nat);
        }
        x = x / 2;
        r = r + 1;
    }
    r
}

/// Step fact for `floor_log2`: while x >= 2, the count so far stays below 63.
proof fn lemma_floor_log2_helper(range: nat, x: nat, r: nat)
    requires
        1 <= range <= u64::MAX,
        2 <= x,
        spec_floor_log2(range) == r + spec_floor_log2(x),
    ensures
        r + 1 <= 63,
        spec_floor_log2(range) == r + 1 + spec_floor_log2(x / 2),
{
    lemma_floor_log2_u64(range);
}

/// Computes 2^e without overflow.
pub fn pow2_u64(e: u32) -> (r: u64)
    requires
        e <= 63,
    ensures
        r == pow2(e as nat),
{
    let mut r: u64 = 1;
    let mut i: u32 = 0;
    proof {
        lemma2_to64();
    }
    while i < e
        invariant
            i <= e,
            e <= 63,
            r == pow2(i as nat),
        decreases e - i,
    {
        proof {
            lemma_pow2_63_fits(i as nat);
            lemma_pow2_unfold((i + 1) as nat);
        }
        r = r * 2;
        i = i + 1;
    }
    r
}

proof fn lemma_pow2_63_fits(i: nat)
    requires
        i <= 62,
    ensures
        2 * pow2(i) <= u64::MAX,
{
    lemma_pow2_unfold(i + 1);
    if i + 1 < 63 {
        lemma_pow2_strictly_increases(i + 1, 63);
    }
    lemma2_to64_rest();
}

/// The character written for one bit.
pub open spec fn bit_char(b: u8) -> char {
    if b == 0 {
        '0'
    } else {
        '1'
    }
}

/// The characters written for a buffer of bits.
pub open spec fn bit_chars(bits: Seq<u8>) -> Seq<char> {
    bits.map_values(|b: u8| bit_char(b))
}

/// The low `width` bits of `v`, most significant first, zero padded.
pub open spec fn bin_bits(v: nat, width: nat) -> Seq<u8>
    decreases width,
{
    if width == 0 {
        Seq::empty()
    } else {
        bin_bits(v / 2, (width - 1) as nat).push((v % 2) as u8)
    }
}

/// Every entry of a fixed-width encoding is a single bit.
pub proof fn lemma_bin_bits_are_bits(v: nat, width: nat)
    ensures
        bin_bits(v, width).len() == width,
        forall|i: int| 0 <= i < width ==> #[trigger] bin_bits(v, width)[i] <= 1,
    decreases width,
{
    if width > 0 {
        lemma_bin_bits_are_bits(v / 2, (width - 1) as nat);
    }
}

/// Appends the fixed-width MSB-first binary encoding of `v` to `out`.
pub(crate) fn push_bin_bits(v: u64, width: u32, out: &mut Vec<u8>)
    ensures
        final(out)@ == old(out)@ + bin_bits(v as nat, width as nat),
    decreases width,
{
    if width > 0 {
        push_bin_bits(v / 2, width - 1, out);
        out.push((v % 2) as u8);
        proof {
            assert(out@ =~= old(out)@ + bin_bits(v as nat, width as nat));
        }
    } else {
        proof {
            assert(out@ =~= old(out)@ + bin_bits(v as nat, 0));
        }
    }
}

/// Writes a buffer of bits as a string of '0' and '1' characters.
pub fn bits_to_string(bits: &Vec<u8>) -> (s: String)
    ensures
        s@ == bit_chars(bits@),
{
    let mut s = String::new();
    let mut i: usize = 0;
    proof {
        assert(s@ =~= bit_chars(bits@.take(0)));
    }
    while i < bits.len()
        invariant
            i <= bits@.len(),
            s@ == bit_chars(bits@.take(i as int)),
        decreases bits@.len() - i,
    {
        proof {
            reveal_strlit("0");
            reveal_strlit("1");
        }
        if bits[i] == 0 {
            s.append("0");
        } else {
            s.append("1");
        }
        i = i + 1;
        proof {
            assert(s@ =~= bit_chars(bits@.take(i as int)));
        }
    }
    proof {
        assert(bits@.take(bits@.len() as int) =~= bits@);
    }
    s
}

/// Writes `data` as a binary string of exactly `bit_space_len` characters,
/// most significant bit first and zero padded; fails when the significant
/// bits of `data` do not fit in that many characters.
pub fn u64_to_binary(data: u64, bit_space_len: u32) -> (r: Result<String, UtilsError>)
    ensures
        match r {
            Ok(s) => sig_bits(data as nat) <= bit_space_len && s@ == bit_chars(
                bin_bits(data as nat, bit_space_len as nat),
            ),
            Err(e) => sig_bits(data as nat) > bit_space_len && e
                == (UtilsError::TotalBitSpaceIsLessThanDataSignificantBitLength {
                data_significant_bit_len: sig_bits(data as nat) as u32,
                bit_space_len,
            }),
        },
{
    let sig: u32 = if data == 0 {
        1
    } else {
        floor_log2(data) + 1
    };
    if sig > bit_space_len {
        Err(
            UtilsError::TotalBitSpaceIsLessThanDataSignificantBitLength {
                data_significant_bit_len: sig,
                bit_space_len,
            },
        )
    } else {
        let mut out: Vec<u8> = Vec::new();
        push_bin_bits(data, bit_space_len, &mut out);
        Ok(bits_to_string(&out))
    }
}

/// The bit buffer produced by a sequence of accepted draws: the fixed-width
/// encodings of the values, in order.
pub open spec fn concat_bits(vals: Seq<u64>, width: nat) -> Seq<u8>
    decreases vals.len(),
{
    if vals.len() == 0 {
        Seq::empty()
    } else {
        bin_bits(vals[0] as nat, width) + concat_bits(vals.drop_first(), width)
    }
}

/// Appending one more accepted value appends exactly its encoding.
pub proof fn lemma_concat_bits_push(vals: Seq<u64>, width: nat, v: u64)
    ensures
        concat_bits(vals.push(v), width) =~= concat_bits(vals, width) + bin_bits(v as nat, width),
    decreases vals.len(),
{
    if vals.len() == 0 {
        assert(vals.push(v)[0] == v);
        assert(vals.push(v).drop_first() =~= Seq::<u64>::empty());
        assert(concat_bits(vals.push(v), width) == bin_bits(v as nat, width) + concat_bits(
            Seq::<u64>::empty(),
            width,
        ));
    } else {
        assert(vals.push(v)[0] == vals[0]);
        assert(vals.push(v).drop_first() =~= vals.drop_first().push(v));
        lemma_concat_bits_push(vals.drop_first(), width, v);
        let a = bin_bits(vals[0] as nat, width);
        let b = concat_bits(vals.drop_first(), width);
        let c = bin_bits(v as nat, width);
        assert(concat_bits(vals.push(v), width) == a + (b + c));
        assert(a + (b + c) =~= (a + b) + c);
    }
}

/// The concatenated buffer has one fixed-width group per accepted value,
/// and each entry is a single bit.
pub proof fn lemma_concat_bits_len(vals: Seq<u64>, width: nat)
    ensures
        concat_bits(vals, width).len() == vals.len() * width,
        forall|i: int|
            0 <= i < vals.len() * width ==> #[trigger] concat_bits(vals, width)[i] <= 1,
    decreases vals.len(),
{
    if vals.len() > 0 {
        lemma_bin_bits_are_bits(vals[0] as nat, width);
        lemma_concat_bits_len(vals.drop_first(), width);
        let n = vals.len() as int;
        let w = width as int;
        assert(n * w == w + (n - 1) * w) by (nonlinear_arith);
        assert(vals.drop_first().len() == n - 1);
    }
}

/// Each accepted draw owns one packed bit group: group `i` of the buffer is
/// exactly the zero-indexed draw value written as `width` bits, MSB first,
/// zero padded.
pub proof fn lemma_concat_bits_group(vals: Seq<u64>, width: nat, i: int)
    requires
        0 <= i < vals.len(),
    ensures
        concat_bits(vals, width).subrange(i * width, (i + 1) * width) =~= bin_bits(
            vals[i] as nat,
            width,
        ),
    decreases vals.len(),
{
    lemma_concat_bits_len(vals, width);
    lemma_bin_bits_are_bits(vals[0] as nat, width);
    let w = width as int;
    let n = vals.len() as int;
    let s = concat_bits(vals, width);
    assert((i + 1) * w <= n * w && 0 <= i * w && i * w + w == (i + 1) * w) by (nonlinear_arith)
        requires
            0 <= i < n,
            0 <= w,
    ;
    if i == 0 {
        assert(s.subrange(0, w) =~= bin_bits(vals[0] as nat, width));
    } else {
        let s2 = concat_bits(vals.drop_first(), width);
        lemma_concat_bits_len(vals.drop_first(), width);
        lemma_concat_bits_group(vals.drop_first(), width, i - 1);
        assert((i - 1) * w == i * w - w && w <= i * w) by (nonlinear_arith)
            requires
                1 <= i,
                0 <= w,
        ;
        assert(s.subrange(i * w, (i + 1) * w) =~= s2.subrange((i - 1) * w, i * w));
    }
}

/// The value of one 8-bit group, bit 0 being the least significant.
pub open spec fn group_val(bits: Seq<u8>) -> nat
    decreases bits.len(),
{
    if bits.len() == 0 {
        0
    } else {
        (bits[0] + 2 * group_val(bits.drop_first())) as nat
    }
}

/// A group of single bits has a value below 2^len.
pub proof fn lemma_group_val_bound(bits: Seq<u8>)
    requires
        forall|i: int| 0 <= i < bits.len() ==> #[trigger] bits[i] <= 1,
    ensures
        group_val(bits) < pow2(bits.len()),
    decreases bits.len(),
{
    lemma2_to64();
    if bits.len() > 0 {
        lemma_group_val_bound(bits.drop_first());
        lemma_pow2_unfold(bits.len());
    }
}

/// The bytes packed from a bit buffer: each group of 8 bits becomes one
/// byte, bit 0 of the group being the least significant bit of its byte.
pub open spec fn pack_bits(bits: Seq<u8>) -> Seq<u8> {
    Seq::new(bits.len() / 8, |k: int| (group_val(bits.subrange(8 * k, 8 * k + 8)) % 256) as u8)
}

/// Packs a bit buffer whose length is a multiple of 8 into bytes.
pub fn pack_bit_vector(bits: &Vec<u8>) -> (r: Vec<u8>)
    requires
        forall|i: int| 0 <= i < bits@.len() ==> #[trigger] bits@[i] <= 1,
    ensures
        r@ == pack_bits(bits@),
        r@.len() == bits@.len() / 8,
{
    let n_bits: usize = bits.len();
    let n_groups: usize = n_bits / 8;
    let mut r: Vec<u8> = Vec::new();
    let mut k: usize = 0;
    while k < n_groups
        invariant
            k <= n_groups,
            n_bits == bits@.len(),
            n_groups == bits@.len() / 8,
            forall|i: int| 0 <= i < bits@.len() ==> #[trigger] bits@[i] <= 1,
            r@ =~= pack_bits(bits@).take(k as int),
        decreases n_groups - k,
    {
        let ghost group = bits@.subrange(8 * k as int, 8 * k as int + 8);
        proof {
            lemma_group_val_bound(group);
            lemma2_to64();
        }
        let mut acc: u8 = 0;
        let mut j: usize = 8;
        while j > 0
            invariant
                j <= 8,
                k < n_groups,
                n_bits == bits@.len(),
                n_groups == bits@.len() / 8,
                forall|i: int| 0 <= i < bits@.len() ==> #[trigger] bits@[i] <= 1,
                group =~= bits@.subrange(8 * k as int, 8 * k as int + 8),
                acc == group_val(group.skip(j as int)),
                group_val(group.skip(j as int)) < pow2((8 - j) as nat),
            decreases j,
        {
            proof {
                lemma_group_val_bound(group.skip(j as int - 1));
                lemma2_to64();
                assert(group.skip(j as int - 1).drop_first() =~= group.skip(j as int));
                assert(8 * (k as int) + 8 <= bits@.len());
            }
            j = j - 1;
            acc = 2 * acc + bits[8 * k + j];
        }
        proof {
            assert(group.skip(0) =~= group);
        }
        r.push(acc);
        k = k + 1;
        proof {
            assert(r@ =~= pack_bits(bits@).take(k as int));
        }
    }
    proof {
        assert(pack_bits(bits@).take(n_groups as int) =~= pack_bits(bits@));
    }
    r
}

/// Byte-wise XOR of two equal-length buffers.
pub open spec fn xor_seq(a: Seq<u8>, b: Seq<u8>) -> Seq<u8> {
    Seq::new(a.len(), |i: int| a[i] ^ b[i])
}

/// Mixing is self-inverse under XOR: combining the mixed buffer with the
/// same random bytes again restores the original buffer.
pub proof fn lemma_xor_self_inverse(a: Seq<u8>, b: Seq<u8>)
    requires
        a.len() == b.len(),
    ensures
        xor_seq(xor_seq(a, b), b) =~= a,
{
    assert forall|i: int| 0 <= i < a.len() implies xor_seq(xor_seq(a, b), b)[i] == a[i] by {
        let x = a[i];
        let y = b[i];
        assert((x ^ y) ^ y == x) by (bit_vector);
    }
}

/// XORs two equal-length byte buffers, element by element.
pub fn xor_bytes(a: &Vec<u8>, b: &Vec<u8>) -> (r: Vec<u8>)
    requires
        a@.len() == b@.len(),
    ensures
        r@ == xor_seq(a@, b@),
{
    let mut r: Vec<u8> = Vec::new();
    let mut i: usize = 0;
    while i < a.len()
        invariant
            i <= a@.len(),
            a@.len() == b@.len(),
            r@ =~= xor_seq(a@, b@).take(i as int),
        decreases a@.len() - i,
    {
        r.push(a[i] ^ b[i]);
        i = i + 1;
        proof {
            assert(r@ =~= xor_seq(a@, b@).take(i as int));
        }
    }
    proof {
        assert(xor_seq(a@, b@).take(a@.len() as int) =~= xor_seq(a@, b@));
    }
    r
}

/// The bit characters written for a byte buffer: each byte as 8 binary
/// digits, most significant first.
pub open spec fn bytes_bits(s: Seq<u8>) -> Seq<u8>
    decreases s.len(),
{
    if s.len() == 0 {
        Seq::empty()
    } else {
        bin_bits(s[0] as nat, 8) + bytes_bits(s.drop_first())
    }
}

proof fn lemma_bytes_bits_push(s: Seq<u8>, v: u8)
    ensures
        bytes_bits(s.push(v)) =~= bytes_bits(s) + bin_bits(v as nat, 8),
    decreases s.len(),
{
    if s.len() == 0 {
        assert(s.push(v)[0] == v);
        assert(s.push(v).drop_first() =~= Seq::<u8>::empty());
        assert(bytes_bits(s.push(v)) == bin_bits(v as nat, 8) + bytes_bits(Seq::<u8>::empty()));
    } else {
        assert(s.push(v)[0] == s[0]);
        assert(s.push(v).drop_first() =~= s.drop_first().push(v));
        lemma_bytes_bits_push(s.drop_first(), v);
        let a = bin_bits(s[0] as nat, 8);
        let b = bytes_bits(s.drop_first());
        let c = bin_bits(v as nat, 8);
        assert(bytes_bits(s.push(v)) == a + (b + c));
        assert(a + (b + c) =~= (a + b) + c);
    }
}

/// Writes a byte buffer as a bit string: each byte becomes exactly 8
/// characters, most significant bit first.
pub fn vec_u8_to_bit_string(data: &[u8]) -> (r: String)
    ensures
        r@ == bit_chars(bytes_bits(data@)),
{
    let mut bits: Vec<u8> = Vec::new();
    let mut i: usize = 0;
    proof {
        assert(bytes_bits(data@.take(0)) =~= Seq::<u8>::empty());
    }
    while i < data.len()
        invariant
            i <= data@.len(),
            bits@ == bytes_bits(data@.take(i as int)),
        decreases data@.len() - i,
    {
        push_bin_bits(data[i] as u64, 8, &mut bits);
        i = i + 1;
        proof {
            assert(data@.take(i as int) =~= data@.take(i as int - 1).push(data@[i as int - 1]));
            lemma_bytes_bits_push(data@.take(i as int - 1), data@[i as int - 1]);
        }
    }
    proof {
        assert(data@.take(data@.len() as int) =~= data@);
    }
    bits_to_string(&bits)
}

} // verus!
