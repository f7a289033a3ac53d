//! Bit-level decoding primitives: the bit reader, the boundary checker, and
//! the decoders for fixed-width integers, alphabet strings, flag bitmaps and
//! range-encoded ID sets that everything else is built on.
//!
//! Bits are numbered contiguously across the buffer, most-significant-first:
//! bit 0 is the most-significant bit of byte 0.

use vstd::prelude::*;
use vstd::arithmetic::power2::pow2;
use crate::error::TcsError;
use crate::model::RangeSection;

verus! {

/// A strictly ascending sequence of purpose-sized IDs: sorted, no duplicate.
pub open spec fn strictly_ascending_u8(s: Seq<u8>) -> bool {
    forall|i: int, j: int| 0 <= i < j < s.len() ==> s[i] < s[j]
}

/// A strictly ascending sequence of vendor-sized IDs: sorted, no duplicate.
pub open spec fn strictly_ascending_u16(s: Seq<u16>) -> bool {
    forall|i: int, j: int| 0 <= i < j < s.len() ==> s[i] < s[j]
}

/// A decoded ID list represents a set of IDs: it holds exactly the set's
/// elements, in strictly ascending order.
pub open spec fn id_list_matches_u8(l: Seq<u8>, s: Set<u8>) -> bool {
    strictly_ascending_u8(l) && l.to_set() == s
}

/// A decoded ID list represents a set of IDs: it holds exactly the set's
/// elements, in strictly ascending order.
pub open spec fn id_list_matches_u16(l: Seq<u16>, s: Set<u16>) -> bool {
    strictly_ascending_u16(l) && l.to_set() == s
}

/// A set of IDs has exactly one strictly ascending listing: two ordered
/// lists with the same elements are equal. This is what makes decoded
/// records unique, and decoding deterministic.
pub proof fn lemma_ascending_listing_unique_u8(x: Seq<u8>, y: Seq<u8>)
    requires
        strictly_ascending_u8(x),
        strictly_ascending_u8(y),
        x.to_set() == y.to_set(),
    ensures
        x == y,
    decreases x.len(),
{
    if x.len() == 0 {
        if y.len() > 0 {
            assert(x.to_set().contains(y[0]));
        }
        assert(x =~= y);
    } else {
        assert(y.to_set().contains(x[0]));
        assert(x.to_set().contains(y[0]));
        let i = choose|i: int| 0 <= i < x.len() && x[i] == y[0];
        let j = choose|j: int| 0 <= j < y.len() && y[j] == x[0];
        assert(x[0] <= x[i] && y[0] <= y[j]);
        assert(x[0] == y[0]);
        let xt = x.drop_first();
        let yt = y.drop_first();
        assert forall|a: u8| xt.to_set().contains(a) implies yt.to_set().contains(a) by {
            let k = choose|k: int| 0 <= k < xt.len() && xt[k] == a;
            assert(x[k + 1] == a && x[0] < a);
            assert(y.to_set().contains(a));
            let m = choose|m: int| 0 <= m < y.len() && y[m] == a;
            assert(m > 0);
            assert(yt[m - 1] == a);
        }
        assert forall|a: u8| yt.to_set().contains(a) implies xt.to_set().contains(a) by {
            let k = choose|k: int| 0 <= k < yt.len() && yt[k] == a;
            assert(y[k + 1] == a && y[0] < a);
            assert(x.to_set().contains(a));
            let m = choose|m: int| 0 <= m < x.len() && x[m] == a;
            assert(m > 0);
            assert(xt[m - 1] == a);
        }
        assert(xt.to_set() =~= yt.to_set());
        lemma_ascending_listing_unique_u8(xt, yt);
        assert(xt.len() == yt.len());
        assert(x.len() == xt.len() + 1 && y.len() == yt.len() + 1);
        assert(x.len() == y.len());
        assert forall|k: int| 0 < k < x.len() implies x[k] == y[k] by {
            assert(x[k] == xt[k - 1] && y[k] == yt[k - 1]);
        }
        assert(x =~= y);
    }
}

/// A set of IDs has exactly one strictly ascending listing: two ordered
/// lists with the same elements are equal. This is what makes decoded
/// records unique, and decoding deterministic.
pub proof fn lemma_ascending_listing_unique_u16(x: Seq<u16>, y: Seq<u16>)
    requires
        strictly_ascending_u16(x),
        strictly_ascending_u16(y),
        x.to_set() == y.to_set(),
    ensures
        x == y,
    decreases x.len(),
{
    if x.len() == 0 {
        if y.len() > 0 {
            assert(x.to_set().contains(y[0]));
        }
        assert(x =~= y);
    } else {
        assert(y.to_set().contains(x[0]));
        assert(x.to_set().contains(y[0]));
        let i = choose|i: int| 0 <= i < x.len() && x[i] == y[0];
        let j = choose|j: int| 0 <= j < y.len() && y[j] == x[0];
        assert(x[0] <= x[i] && y[0] <= y[j]);
        assert(x[0] == y[0]);
        let xt = x.drop_first();
        let yt = y.drop_first();
        assert forall|a: u16| xt.to_set().contains(a) implies yt.to_set().contains(a) by {
            let k = choose|k: int| 0 <= k < xt.len() && xt[k] == a;
            assert(x[k + 1] == a && x[0] < a);
            assert(y.to_set().contains(a));
            let m = choose|m: int| 0 <= m < y.len() && y[m] == a;
            assert(m > 0);
            assert(yt[m - 1] == a);
        }
        assert forall|a: u16| yt.to_set().contains(a) implies xt.to_set().contains(a) by {
            let k = choose|k: int| 0 <= k < yt.len() && yt[k] == a;
            assert(y[k + 1] == a && y[0] < a);
            assert(x.to_set().contains(a));
            let m = choose|m: int| 0 <= m < x.len() && x[m] == a;
            assert(m > 0);
            assert(xt[m - 1] == a);
        }
        assert(xt.to_set() =~= yt.to_set());
        lemma_ascending_listing_unique_u16(xt, yt);
        assert(xt.len() == yt.len());
        assert(x.len() == xt.len() + 1 && y.len() == yt.len() + 1);
        assert(x.len() == y.len());
        assert forall|k: int| 0 < k < x.len() implies x[k] == y[k] by {
            assert(x[k] == xt[k - 1] && y[k] == yt[k - 1]);
        }
        assert(x =~= y);
    }
}

/// A strictly ascending ID list has no duplicates.
pub proof fn lemma_ascending_no_duplicates_u8(s: Seq<u8>)
    requires
        strictly_ascending_u8(s),
    ensures
        s.no_duplicates(),
{
}

/// A strictly ascending ID list has no duplicates.
pub proof fn lemma_ascending_no_duplicates_u16(s: Seq<u16>)
    requires
        strictly_ascending_u16(s),
    ensures
        s.no_duplicates(),
{
}

/// Bit `i` of a byte buffer, counting the most-significant bit of byte 0 as
/// bit 0 and numbering contiguously, most-significant-first, across bytes.
pub open spec fn bit_at(b: Seq<u8>, i: int) -> bool {
    (b[i / 8] >> ((7 - (i % 8)) as u8)) & 1u8 == 1u8
}

/// `bit_at` as a one-bit integer.
pub open spec fn bit_val(b: Seq<u8>, i: int) -> nat {
    if bit_at(b, i) {
        1
    } else {
        0
    }
}

/// The unsigned integer held in bits `start .. start + len` of the buffer,
/// most-significant bit first.
pub open spec fn bits_value(b: Seq<u8>, start: int, len: nat) -> nat
    decreases len,
{
    if len == 0 {
        0
    } else {
        2 * bits_value(b, start, (len - 1) as nat) + bit_val(b, start + len - 1)
    }
}

/// An `len`-bit field is bounded by `2^len`.
pub proof fn lemma_bits_value_bound(b: Seq<u8>, start: int, len: nat)
    ensures
        bits_value(b, start, len) < pow2(len),
    decreases len,
{
    if len == 0 {
        vstd::arithmetic::power2::lemma2_to64();
    } else {
        vstd::arithmetic::power2::lemma_pow2_unfold(len);
        lemma_bits_value_bound(b, start, (len - 1) as nat);
    }
}

/// The boundary checker: every read is preceded by a call of this function,
/// which confirms that the buffer holds at least `bit_index` bits.
pub fn byte_list_bit_boundary_check<T>(slice: &[T], bit_index: usize) -> (r: Result<(), TcsError>)
    ensures
        r == if slice@.len() * 8 >= bit_index {
            Ok::<(), TcsError>(())
        } else {
            Err::<(), TcsError>(TcsError::InsufficientLength)
        },
{
    let whole_bytes = bit_index / 8;
    let needed = if bit_index % 8 == 0 {
        whole_bytes
    } else {
        whole_bytes + 1
    };
    proof {
        assert(slice@.len() >= needed <==> slice@.len() * 8 >= bit_index) by (nonlinear_arith)
            requires
                needed == bit_index / 8 + if bit_index % 8 == 0 { 0int } else { 1int },
                bit_index >= 0,
        ;
    }
    if slice.len() >= needed {
        Ok(())
    } else {
        Err(TcsError::InsufficientLength)
    }
}

/// The bit reader: extracts the `bit_length`-bit unsigned integer that starts
/// at absolute bit offset `absolute_start_bit`, crossing byte boundaries as
/// needed. Callers must have validated the buffer length first.
pub fn parse_from_bytes(val: &[u8], absolute_start_bit: usize, bit_length: usize) -> (r: u64)
    requires
        1 <= bit_length <= 64,
        absolute_start_bit + bit_length <= val@.len() * 8,
    ensures
        r == bits_value(val@, absolute_start_bit as int, bit_length as nat),
{
    let first_byte = absolute_start_bit / 8;
    let first_bit = absolute_start_bit % 8;
    let mut result: u64 = 0;
    let mut i: usize = 0;
    proof {
        vstd::arithmetic::power2::lemma2_to64();
    }
    while i < bit_length
        invariant
            1 <= bit_length <= 64,
            0 <= i <= bit_length,
            first_byte == absolute_start_bit as int / 8,
            first_bit == absolute_start_bit as int % 8,
            absolute_start_bit + bit_length <= val@.len() * 8,
            result == bits_value(val@, absolute_start_bit as int, i as nat),
            result < pow2(i as nat),
        decreases bit_length - i,
    {
        proof {
            lemma_bits_value_bound(val@, absolute_start_bit as int, (i + 1) as nat);
            assert((absolute_start_bit + i) as int / 8 == first_byte + (first_bit + i) as int / 8
                && (absolute_start_bit + i) as int % 8 == (first_bit + i) as int % 8)
                by (nonlinear_arith)
                requires
                    first_byte == absolute_start_bit as int / 8,
                    first_bit == absolute_start_bit as int % 8,
                    absolute_start_bit >= 0,
                    0 <= i <= 64,
            ;
            assert(first_byte + (first_bit + i) / 8 < val@.len()) by (nonlinear_arith)
                requires
                    first_byte + (first_bit + i) as int / 8 == (absolute_start_bit + i) as int
                        / 8,
                    absolute_start_bit + i < val@.len() * 8,
                    absolute_start_bit >= 0,
                    i >= 0,
            ;
        }
        let byte: u8 = val[first_byte + (first_bit + i) / 8];
        let shift: u8 = 7 - ((first_bit + i) % 8) as u8;
        let bit: u8 = (byte >> shift) & 1;
        proof {
            assert((byte >> shift) & 1u8 == 0 || (byte >> shift) & 1u8 == 1) by (bit_vector);
            assert(bit == 1 <==> bit_at(val@, absolute_start_bit + i)) by {
                assert(byte == val@[(absolute_start_bit + i) as int / 8]);
                assert(shift == (7 - ((absolute_start_bit + i) as int % 8)) as u8);
            }
            assert(bits_value(val@, absolute_start_bit as int, (i + 1) as nat) == 2 * bits_value(
                val@,
                absolute_start_bit as int,
                i as nat,
            ) + bit_val(val@, absolute_start_bit + i));
            assert(pow2((i + 1) as nat) == 2 * pow2(i as nat)) by {
                vstd::arithmetic::power2::lemma_pow2_unfold((i + 1) as nat);
            }
            assert(pow2(64) == 0x10000000000000000) by {
                vstd::arithmetic::power2::lemma2_to64_rest();
            }
            assert(pow2((i + 1) as nat) <= pow2(64)) by {
                if i + 1 < 64 {
                    vstd::arithmetic::power2::lemma_pow2_strictly_increases((i + 1) as nat, 64);
                }
            }
        }
        result = 2 * result + (bit as u64);
        i = i + 1;
    }
    result
}


/// The set of 1-based flag positions that are set in the `len`-bit bitmap
/// starting at absolute bit offset `start`, as purpose-sized IDs.
pub open spec fn bitfield_set_u8(b: Seq<u8>, start: int, len: int) -> Set<u8> {
    Set::new(|id: u8| 1 <= id <= len && bit_at(b, start + id - 1))
}

/// The set of 1-based flag positions that are set in the `len`-bit bitmap
/// starting at absolute bit offset `start`, as vendor-sized IDs.
pub open spec fn bitfield_set_u16(b: Seq<u8>, start: int, len: int) -> Set<u16> {
    Set::new(|id: u16| 1 <= id <= len && bit_at(b, start + id - 1))
}

/// What the bitmap decoder for purpose-sized IDs returns: the boundary is
/// checked first, then the flags are collected.
pub open spec fn spec_parse_u8_bitfield(b: Seq<u8>, start: int, len: int) -> Result<
    Set<u8>,
    TcsError,
> {
    if b.len() * 8 < start + len {
        Err(TcsError::InsufficientLength)
    } else {
        Ok(bitfield_set_u8(b, start, len))
    }
}

/// What the bitmap decoder for vendor-sized IDs returns: the boundary is
/// checked first, then the flags are collected.
pub open spec fn spec_parse_u16_bitfield(b: Seq<u8>, start: int, len: int) -> Result<
    Set<u16>,
    TcsError,
> {
    if b.len() * 8 < start + len {
        Err(TcsError::InsufficientLength)
    } else {
        Ok(bitfield_set_u16(b, start, len))
    }
}

/// Reads `bit_length` consecutive one-bit flags starting at `bit_start`; for
/// each flag set to 1 at 0-based relative position `i`, the ID `i + 1` is in
/// the result, which is strictly ascending.
pub fn parse_u8_bitfield_from_bytes(val: &[u8], bit_start: usize, bit_length: usize) -> (r: Result<
    Vec<u8>,
    TcsError,
>)
    requires
        bit_start + bit_length <= usize::MAX,
        bit_length <= u8::MAX,
    ensures
        match r {
            Ok(l) => spec_parse_u8_bitfield(val@, bit_start as int, bit_length as int) is Ok
                && id_list_matches_u8(
                l@,
                spec_parse_u8_bitfield(val@, bit_start as int, bit_length as int)->Ok_0,
            ),
            Err(e) => spec_parse_u8_bitfield(val@, bit_start as int, bit_length as int)
                == Err::<Set<u8>, TcsError>(e),
        },
{
    byte_list_bit_boundary_check(val, bit_start + bit_length)?;
    let mut result: Vec<u8> = Vec::new();
    let mut i: usize = 0;
    while i < bit_length
        invariant
            0 <= i <= bit_length,
            bit_length <= u8::MAX,
            bit_start + bit_length <= usize::MAX,
            val@.len() * 8 >= bit_start + bit_length,
            strictly_ascending_u8(result@),
            result@.to_set() == bitfield_set_u8(val@, bit_start as int, i as int),
        decreases bit_length - i,
    {
        let ghost prev = result@;
        if parse_from_bytes(val, bit_start + i, 1) == 1 {
            proof {
                assert(bits_value(val@, bit_start + i, 0) == 0);
                assert(bits_value(val@, bit_start + i, 1) == bit_val(val@, bit_start + i));
            }
            result.push((i + 1) as u8);
            proof {
                assert forall|k: int| 0 <= k < prev.len() implies prev[k] < (i + 1) as u8 by {
                    assert(prev.to_set().contains(prev[k]));
                }
                prev.lemma_push_to_set_commute((i + 1) as u8);
            }
        } else {
            proof {
                assert(bits_value(val@, bit_start + i, 0) == 0);
                assert(bits_value(val@, bit_start + i, 1) == bit_val(val@, bit_start + i));
            }
        }
        proof {
            assert(result@.to_set() =~= bitfield_set_u8(val@, bit_start as int, i + 1));
        }
        i = i + 1;
    }
    Ok(result)
}

/// Reads `bit_length` consecutive one-bit flags starting at `bit_start`; for
/// each flag set to 1 at 0-based relative position `i`, the ID `i + 1` is in
/// the result, which is strictly ascending.
pub fn parse_u16_bitfield_from_bytes(val: &[u8], bit_start: usize, bit_length: usize) -> (r:
    Result<Vec<u16>, TcsError>)
    requires
        bit_start + bit_length <= usize::MAX,
        bit_length <= u16::MAX,
    ensures
        match r {
            Ok(l) => spec_parse_u16_bitfield(val@, bit_start as int, bit_length as int) is Ok
                && id_list_matches_u16(
                l@,
                spec_parse_u16_bitfield(val@, bit_start as int, bit_length as int)->Ok_0,
            ),
            Err(e) => spec_parse_u16_bitfield(val@, bit_start as int, bit_length as int)
                == Err::<Set<u16>, TcsError>(e),
        },
{
    byte_list_bit_boundary_check(val, bit_start + bit_length)?;
    let mut result: Vec<u16> = Vec::new();
    let mut i: usize = 0;
    while i < bit_length
        invariant
            0 <= i <= bit_length,
            bit_length <= u16::MAX,
            bit_start + bit_length <= usize::MAX,
            val@.len() * 8 >= bit_start + bit_length,
            strictly_ascending_u16(result@),
            result@.to_set() == bitfield_set_u16(val@, bit_start as int, i as int),
        decreases bit_length - i,
    {
        let ghost prev = result@;
        if parse_from_bytes(val, bit_start + i, 1) == 1 {
            proof {
                assert(bits_value(val@, bit_start + i, 0) == 0);
                assert(bits_value(val@, bit_start + i, 1) == bit_val(val@, bit_start + i));
            }
            result.push((i + 1) as u16);
            proof {
                assert forall|k: int| 0 <= k < prev.len() implies prev[k] < (i + 1) as u16 by {
                    assert(prev.to_set().contains(prev[k]));
                }
                prev.lemma_push_to_set_commute((i + 1) as u16);
            }
        } else {
            proof {
                assert(bits_value(val@, bit_start + i, 0) == 0);
                assert(bits_value(val@, bit_start + i, 1) == bit_val(val@, bit_start + i));
            }
        }
        proof {
            assert(result@.to_set() =~= bitfield_set_u16(val@, bit_start as int, i + 1));
        }
        i = i + 1;
    }
    Ok(result)
}


/// The uppercase Latin letter that a six-bit alphabet code denotes:
/// code 0 is `A`, code 25 is `Z`.
pub open spec fn letter_char(v: u8) -> char {
    ((65 + v) as u8) as char
}

/// What the alphabet-string decoder returns: `char_count` consecutive
/// `bit_width`-bit codes starting at `bit_start`, each mapped to a letter,
/// or `InvalidAlphabetOffset` if any code (narrowed to a byte, as the
/// decoder stores it) exceeds 25.
pub open spec fn spec_parse_string(b: Seq<u8>, start: int, width: int, count: int) -> Result<
    Seq<char>,
    TcsError,
> {
    if b.len() * 8 < start + count * width {
        Err(TcsError::InsufficientLength)
    } else if exists|k: int|
        0 <= k < count && (#[trigger] bits_value(b, start + k * width, width as nat) as u8) > 25 {
        Err(TcsError::InvalidAlphabetOffset)
    } else {
        Ok(
            Seq::new(
                count as nat,
                |k: int| letter_char(bits_value(b, start + k * width, width as nat) as u8),
            ),
        )
    }
}

/// Decodes `char_count` consecutive `bit_width`-bit alphabet codes starting
/// at `bit_start` into a string of uppercase Latin letters; fails with
/// `InvalidAlphabetOffset` if any code lies outside A-Z.
pub fn parse_string_from_bytes(
    val: &[u8],
    bit_start: usize,
    bit_width: usize,
    char_count: usize,
) -> (r: Result<String, TcsError>)
    requires
        1 <= bit_width <= 64,
        bit_start + char_count * bit_width <= usize::MAX,
    ensures
        match r {
            Ok(s) => spec_parse_string(
                val@,
                bit_start as int,
                bit_width as int,
                char_count as int,
            ) == Ok::<Seq<char>, TcsError>(s@),
            Err(e) => spec_parse_string(
                val@,
                bit_start as int,
                bit_width as int,
                char_count as int,
            ) == Err::<Seq<char>, TcsError>(e),
        },
{
    byte_list_bit_boundary_check(val, bit_start + char_count * bit_width)?;
    let alphabet = "ABCDEFGHIJKLMNOPQRSTUVWXYZ";
    proof {
        reveal_strlit("ABCDEFGHIJKLMNOPQRSTUVWXYZ");
        assert(alphabet@.len() == 26);
        assert(alphabet.is_ascii());
        assert(forall|v: int| 0 <= v < 26 ==> alphabet@[v] == letter_char(v as u8));
    }
    let mut result = String::new();
    let mut k: usize = 0;
    while k < char_count
        invariant
            0 <= k <= char_count,
            1 <= bit_width <= 64,
            bit_start + char_count * bit_width <= usize::MAX,
            val@.len() * 8 >= bit_start + char_count * bit_width,
            alphabet@.len() == 26,
            alphabet.is_ascii(),
            forall|v: int| 0 <= v < 26 ==> alphabet@[v] == letter_char(v as u8),
            forall|j: int|
                0 <= j < k ==> (#[trigger] bits_value(
                    val@,
                    bit_start + j * bit_width,
                    bit_width as nat,
                ) as u8) <= 25,
            result@ == Seq::new(
                k as nat,
                |j: int| letter_char(
                    bits_value(val@, bit_start + j * bit_width, bit_width as nat) as u8,
                ),
            ),
        decreases char_count - k,
    {
        proof {
            assert(k * bit_width + bit_width <= char_count * bit_width) by (nonlinear_arith)
                requires
                    0 <= k < char_count,
                    bit_width >= 1,
            ;
        }
        let alphabet_offset = parse_from_bytes(val, bit_start + k * bit_width, bit_width) as u8;
        if alphabet_offset > 25 {
            return Err(TcsError::InvalidAlphabetOffset);
        }
        let letter = alphabet.substring_ascii(
            alphabet_offset as usize,
            alphabet_offset as usize + 1,
        );
        proof {
            assert(letter@ =~= seq![letter_char(alphabet_offset)]);
        }
        result.append(letter);
        proof {
            assert(result@ =~= Seq::new(
                (k + 1) as nat,
                |j: int| letter_char(
                    bits_value(val@, bit_start + j * bit_width, bit_width as nat) as u8,
                ),
            ));
        }
        k = k + 1;
    }
    Ok(result)
}


/// The inclusive range of vendor IDs `[lo, hi]`; empty when `lo > hi`.
pub open spec fn range_id_set(lo: u16, hi: u16) -> Set<u16> {
    Set::new(|id: u16| lo <= id <= hi)
}

/// What decoding `n` range entries starting at absolute bit offset `idx`
/// yields: the union of every entry's IDs (a single 16-bit ID after a `0`
/// discriminator bit, an inclusive 16-bit range after a `1`), together with
/// the bit offset just past the last entry. Overlapping ranges and repeated
/// singletons collapse silently into the one set.
pub open spec fn spec_range_entries(b: Seq<u8>, idx: int, n: nat) -> Result<
    (Set<u16>, int),
    TcsError,
>
    decreases n,
{
    if n == 0 {
        Ok((Set::<u16>::empty(), idx))
    } else if b.len() * 8 < idx + 1 {
        Err(TcsError::InsufficientLength)
    } else if bit_at(b, idx) {
        if b.len() * 8 < idx + 33 {
            Err(TcsError::InsufficientLength)
        } else {
            let lo = bits_value(b, idx + 1, 16) as u16;
            let hi = bits_value(b, idx + 17, 16) as u16;
            match spec_range_entries(b, idx + 33, (n - 1) as nat) {
                Ok((s, e)) => Ok((range_id_set(lo, hi).union(s), e)),
                Err(err) => Err(err),
            }
        }
    } else {
        if b.len() * 8 < idx + 17 {
            Err(TcsError::InsufficientLength)
        } else {
            let v = bits_value(b, idx + 1, 16) as u16;
            match spec_range_entries(b, idx + 17, (n - 1) as nat) {
                Ok((s, e)) => Ok((s.insert(v), e)),
                Err(err) => Err(err),
            }
        }
    }
}

/// What the range-section decoder returns: a 12-bit entry count at
/// `bit_start`, then that many entries.
pub open spec fn spec_parse_vendor_range(b: Seq<u8>, bit_start: int) -> Result<
    (Set<u16>, int),
    TcsError,
> {
    if b.len() * 8 < bit_start + 12 {
        Err(TcsError::InsufficientLength)
    } else {
        spec_range_entries(b, bit_start + 12, bits_value(b, bit_start, 12))
    }
}

/// The decoder's progress through a range section: the IDs gathered so far
/// together with what remains at `idx` determine the whole section's result.
pub open spec fn range_suffix_ok(
    b: Seq<u8>,
    start: int,
    n: nat,
    acc: Set<u16>,
    idx: int,
    rem: nat,
) -> bool {
    match spec_range_entries(b, idx, rem) {
        Ok((s, e)) => spec_range_entries(b, start, n) == Ok::<(Set<u16>, int), TcsError>(
            (acc.union(s), e),
        ),
        Err(e) => spec_range_entries(b, start, n) == Err::<(Set<u16>, int), TcsError>(e),
    }
}

/// Range expansion is inclusive on both ends: an ID lies in a decoded
/// range entry's set exactly when it lies between the entry's bounds,
/// and overlapping entries collapse into the one set, since every entry
/// lands in a single set of IDs.
pub proof fn lemma_range_inclusive(lo: u16, hi: u16, id: u16)
    ensures
        range_id_set(lo, hi).contains(id) <==> lo <= id <= hi,
{
}

/// Puts `x` into a strictly ascending list, keeping it strictly ascending;
/// inserting a present ID changes nothing.
fn insert_sorted_u16(v: &mut Vec<u16>, x: u16)
    requires
        strictly_ascending_u16(old(v)@),
    ensures
        strictly_ascending_u16(final(v)@),
        final(v)@.to_set() == old(v)@.to_set().insert(x),
{
    let ghost prev = v@;
    let mut j: usize = 0;
    while j < v.len() && v[j] < x
        invariant
            v@ == prev,
            strictly_ascending_u16(prev),
            0 <= j <= prev.len(),
            forall|k: int| 0 <= k < j ==> prev[k] < x,
        decreases prev.len() - j,
    {
        j = j + 1;
    }
    if j < v.len() && v[j] == x {
        proof {
            assert(prev.to_set().contains(x));
            assert(prev.to_set() =~= prev.to_set().insert(x));
        }
    } else {
        proof {
            assert(forall|k: int| j <= k < prev.len() ==> x < prev[k]);
            prev.insert_ensures(j as int, x);
        }
        v.insert(j, x);
        proof {
            assert forall|a: int, c: int| 0 <= a < c < v@.len() implies v@[a] < v@[c] by {
                assert(v@[a] == if a < j { prev[a] } else if a == j { x } else { prev[a - 1] });
                assert(v@[c] == if c < j { prev[c] } else if c == j { x } else { prev[c - 1] });
            }
            assert forall|q: u16| v@.to_set().contains(q) implies prev.to_set().insert(
                x,
            ).contains(q) by {
                let k = choose|k: int| 0 <= k < v@.len() && v@[k] == q;
                assert(v@[k] == if k < j { prev[k] } else if k == j { x } else { prev[k - 1] });
            }
            assert forall|q: u16| prev.to_set().insert(x).contains(q) implies v@.to_set().contains(
                q,
            ) by {
                if q == x {
                    assert(v@[j as int] == x);
                } else {
                    let k = choose|k: int| 0 <= k < prev.len() && prev[k] == q;
                    if k < j {
                        assert(v@[k] == prev[k]);
                    } else {
                        assert(v@[k + 1] == prev[k]);
                    }
                }
            }
            assert(v@.to_set() =~= prev.to_set().insert(x));
        }
    }
}

/// Decodes a self-describing range section starting at `bit_start`: a 12-bit
/// entry count, then per entry either a single 16-bit ID or an inclusive
/// 16-bit ID range after a one-bit discriminator. All IDs land in one
/// strictly ascending list; the section's end offset is returned so callers
/// can resume reading there. The bound on
/// `bit_start` is a machine limit: the section's largest possible extent
/// must stay inside `usize`.
pub fn parse_vendor_range_from_bytes(val: &[u8], bit_start: usize) -> (r: Result<
    RangeSection,
    TcsError,
>)
    requires
        bit_start + 136000 <= usize::MAX,
    ensures
        match r {
            Ok(sec) => spec_parse_vendor_range(val@, bit_start as int) matches Ok(p)
                && id_list_matches_u16(sec.list@, p.0) && sec.last_bit == p.1 && bit_start + 12
                <= sec.last_bit <= bit_start + 12 + 33 * 4095,
            Err(e) => spec_parse_vendor_range(val@, bit_start as int) == Err::<
                (Set<u16>, int),
                TcsError,
            >(e),
        },
{
    byte_list_bit_boundary_check(val, bit_start + 12)?;
    let num_entries = parse_from_bytes(val, bit_start, 12) as u16;
    proof {
        lemma_bits_value_bound(val@, bit_start as int, 12);
        vstd::arithmetic::power2::lemma2_to64();
    }
    let mut entry_list: Vec<u16> = Vec::new();
    let mut count: u16 = 0;
    let mut bit_index: usize = bit_start + 12;
    proof {
        assert(entry_list@.to_set() =~= Set::<u16>::empty());
        let n = num_entries as nat;
        if spec_range_entries(val@, bit_start + 12, n) is Ok {
            let p = spec_range_entries(val@, bit_start + 12, n)->Ok_0;
            assert(entry_list@.to_set().union(p.0) =~= p.0);
            assert(spec_range_entries(val@, bit_start + 12, n) == Ok::<
                (Set<u16>, int),
                TcsError,
            >((entry_list@.to_set().union(p.0), p.1)));
        }
    }
    while count < num_entries
        invariant
            0 <= count <= num_entries,
            num_entries < 4096,
            num_entries == bits_value(val@, bit_start as int, 12),
            bit_start + 136000 <= usize::MAX,
            bit_start + 12 <= bit_index,
            bit_index <= bit_start + 12 + 33 * (count as int),
            strictly_ascending_u16(entry_list@),
            range_suffix_ok(
                val@,
                bit_start + 12,
                num_entries as nat,
                entry_list@.to_set(),
                bit_index as int,
                (num_entries - count) as nat,
            ),
        decreases num_entries - count,
    {
        let ghost old_idx = bit_index as int;
        let ghost old_acc = entry_list@.to_set();
        let ghost rem = (num_entries - count) as nat;
        byte_list_bit_boundary_check(val, bit_index + 1)?;
        if parse_from_bytes(val, bit_index, 1) == 1 {
            proof {
                assert(bits_value(val@, old_idx, 0) == 0);
                assert(bits_value(val@, old_idx, 1) == bit_val(val@, old_idx));
            }
            byte_list_bit_boundary_check(val, bit_index + 33)?;
            let start_vendor_id = parse_from_bytes(val, bit_index + 1, 16) as u16;
            let end_vendor_id = parse_from_bytes(val, bit_index + 17, 16) as u16;
            proof {
                lemma_bits_value_bound(val@, old_idx + 1, 16);
                lemma_bits_value_bound(val@, old_idx + 17, 16);
            }
            let ghost pre = entry_list@;
            let mut vendor_id: u32 = start_vendor_id as u32;
            while vendor_id <= end_vendor_id as u32
                invariant
                    strictly_ascending_u16(entry_list@),
                    start_vendor_id as u32 <= vendor_id,
                    vendor_id <= 0x10000,
                    entry_list@.to_set() == pre.to_set().union(
                        Set::new(
                            |q: u16|
                                start_vendor_id <= q && (q as u32) < vendor_id && q
                                    <= end_vendor_id,
                        ),
                    ),
                decreases end_vendor_id as int + 1 - vendor_id,
            {
                let ghost mid = entry_list@.to_set();
                insert_sorted_u16(&mut entry_list, vendor_id as u16);
                proof {
                    assert(entry_list@.to_set() =~= pre.to_set().union(
                        Set::new(
                            |q: u16|
                                start_vendor_id <= q && (q as u32) < vendor_id + 1 && q
                                    <= end_vendor_id,
                        ),
                    ));
                }
                vendor_id = vendor_id + 1;
            }
            proof {
                assert(entry_list@.to_set() =~= pre.to_set().union(
                    range_id_set(start_vendor_id, end_vendor_id),
                ));
            }
            bit_index = bit_index + 33;
            count = count + 1;
            proof {
                if spec_range_entries(val@, bit_index as int, (num_entries - count) as nat)
                    is Ok {
                    let p = spec_range_entries(
                        val@,
                        bit_index as int,
                        (num_entries - count) as nat,
                    )->Ok_0;
                    assert(old_acc.union(
                        range_id_set(start_vendor_id, end_vendor_id).union(p.0),
                    ) =~= old_acc.union(range_id_set(start_vendor_id, end_vendor_id)).union(
                        p.0,
                    ));
                }
            }
        } else {
            proof {
                assert(bits_value(val@, old_idx, 0) == 0);
                assert(bits_value(val@, old_idx, 1) == bit_val(val@, old_idx));
            }
            byte_list_bit_boundary_check(val, bit_index + 17)?;
            let vendor_id = parse_from_bytes(val, bit_index + 1, 16) as u16;
            proof {
                lemma_bits_value_bound(val@, old_idx + 1, 16);
            }
            insert_sorted_u16(&mut entry_list, vendor_id);
            bit_index = bit_index + 17;
            count = count + 1;
            proof {
                if spec_range_entries(val@, bit_index as int, (num_entries - count) as nat)
                    is Ok {
                    let p = spec_range_entries(
                        val@,
                        bit_index as int,
                        (num_entries - count) as nat,
                    )->Ok_0;
                    assert(old_acc.union(p.0.insert(vendor_id)) =~= old_acc.insert(
                        vendor_id,
                    ).union(p.0));
                }
            }
        }
    }
    proof {
        assert(spec_range_entries(val@, bit_index as int, 0) == Ok::<(Set<u16>, int), TcsError>(
            (Set::<u16>::empty(), bit_index as int),
        ));
        assert(entry_list@.to_set().union(Set::<u16>::empty()) =~= entry_list@.to_set());
    }
    Ok(RangeSection { last_bit: bit_index, list: entry_list })
}

} // verus!
