//! Conversion of application text into null-terminated UTF-16, the form the
//! native windowing API takes, and the decoding that undoes it.
use vstd::prelude::*;
use vstd::utf8::*;

verus! {

broadcast use {char_is_scalar, char_u32_cast};

/// True for a leading (high) surrogate code unit.
pub open spec fn is_lead_surrogate(u: u16) -> bool {
    0xd800 <= u <= 0xdbff
}

/// True for a trailing (low) surrogate code unit.
pub open spec fn is_trail_surrogate(u: u16) -> bool {
    0xdc00 <= u <= 0xdfff
}

/// The UTF-16 code units of one scalar value: one unit inside the basic
/// plane, a surrogate pair above it.
pub open spec fn utf16_of_scalar(c: u32) -> Seq<u16> {
    if c <= 0xffff {
        seq![c as u16]
    } else {
        seq![
            (0xd800 + (c - 0x10000) / 0x400) as u16,
            (0xdc00 + (c - 0x10000) % 0x400) as u16,
        ]
    }
}

/// The UTF-16 encoding of a character sequence.
pub open spec fn encode_utf16(chars: Seq<char>) -> Seq<u16>
    decreases chars.len(),
{
    if chars.len() == 0 {
        seq![]
    } else {
        utf16_of_scalar(chars[0] as u32) + encode_utf16(chars.drop_first())
    }
}

/// The scalar value that a surrogate pair stands for.
pub open spec fn pair_scalar(lead: u16, trail: u16) -> u32 {
    (0x10000 + (lead - 0xd800) * 0x400 + (trail - 0xdc00)) as u32
}

/// Standard UTF-16 decoding; a surrogate without its partner decodes to
/// the replacement character.
pub open spec fn decode_utf16(units: Seq<u16>) -> Seq<char>
    decreases units.len(),
{
    if units.len() == 0 {
        seq![]
    } else if units.len() >= 2 && is_lead_surrogate(units[0]) && is_trail_surrogate(units[1]) {
        seq![pair_scalar(units[0], units[1]) as char] + decode_utf16(units.subrange(2, units.len() as int))
    } else if is_lead_surrogate(units[0]) || is_trail_surrogate(units[0]) {
        seq!['\u{fffd}'] + decode_utf16(units.drop_first())
    } else {
        seq![(units[0] as u32) as char] + decode_utf16(units.drop_first())
    }
}

/// What `str_to_u16` produces for a text: its UTF-16 encoding and a
/// terminating zero unit.
pub open spec fn wide_of(chars: Seq<char>) -> Seq<u16> {
    encode_utf16(chars).push(0u16)
}

/// Encoding distributes over concatenation.
pub proof fn lemma_encode_utf16_concat(a: Seq<char>, b: Seq<char>)
    ensures
        encode_utf16(a + b) == encode_utf16(a) + encode_utf16(b),
    decreases a.len(),
{
    if a.len() == 0 {
        assert(a + b =~= b);
    } else {
        assert((a + b).drop_first() =~= a.drop_first() + b);
        lemma_encode_utf16_concat(a.drop_first(), b);
    }
}

/// Decoding the UTF-16 encoding of any text gives the text back, for empty
/// text and for characters that take a surrogate pair alike.
pub proof fn lemma_utf16_round_trip(chars: Seq<char>)
    ensures
        decode_utf16(encode_utf16(chars)) == chars,
    decreases chars.len(),
{
    if chars.len() > 0 {
        let c = chars[0] as u32;
        let rest = chars.drop_first();
        let units = encode_utf16(chars);
        lemma_utf16_round_trip(rest);
        char_is_scalar(chars[0]);
        char_u32_cast(chars[0], c);
        if c <= 0xffff {
            assert(units[0] == c as u16);
            assert(units[0] as u32 == c);
            assert(units.drop_first() =~= encode_utf16(rest));
            assert(!is_lead_surrogate(units[0]) && !is_trail_surrogate(units[0]));
            assert(decode_utf16(units) =~= seq![(units[0] as u32) as char] + rest);
            assert(((units[0] as u32) as char) == chars[0]);
        } else {
            let v = (c - 0x10000) as int;
            assert(v == (v / 0x400) * 0x400 + v % 0x400) by (nonlinear_arith);
            assert(0 <= v / 0x400 < 0x400) by (nonlinear_arith)
                requires 0 <= v < 0x100000;
            assert(units.subrange(2, units.len() as int) =~= encode_utf16(rest));
            assert(pair_scalar(units[0], units[1]) == c);
            assert(decode_utf16(units) =~= seq![c as char] + rest);
        }
        assert(seq![chars[0]] + rest =~= chars);
    } else {
        assert(chars =~= Seq::<char>::empty());
        assert(decode_utf16(encode_utf16(chars)) =~= chars);
    }
}

/// The wide form of any text ends in its terminator, and decoding what
/// precedes the terminator gives the text back.
pub proof fn lemma_wide_round_trip(chars: Seq<char>)
    ensures
        wide_of(chars).last() == 0,
        decode_utf16(wide_of(chars).drop_last()) == chars,
{
    assert(wide_of(chars).drop_last() =~= encode_utf16(chars));
    lemma_utf16_round_trip(chars);
}

/// Relies on windows_sys::core::decode_utf8_char: at the end of the bytes it
/// reports nothing; at the start of a well-formed UTF-8 scalar it returns that
/// scalar and the position just past it. It indexes the slice at `pos`, so
/// `pos` must not pass the end.
pub assume_specification[ windows_sys::core::decode_utf8_char ](bytes: &[u8], pos: usize) -> (r:
    Option<(u32, usize)>)
    requires
        pos <= bytes@.len(),
    ensures
        pos == bytes@.len() ==> r is None,
        pos < bytes@.len() && valid_first_scalar(bytes@.subrange(pos as int, bytes@.len() as int))
            ==> r == Some(
            (
                decode_first_scalar(bytes@.subrange(pos as int, bytes@.len() as int)),
                (pos + length_of_first_scalar(
                    bytes@.subrange(pos as int, bytes@.len() as int),
                )) as usize,
            ),
        ),
;

/// Relies on windows_sys::core::utf16_len: it counts one unit for each scalar
/// of the basic plane and two for each above it, so the count of well-formed
/// UTF-8 is the length of its UTF-16 form, and never more than the byte count.
pub assume_specification[ windows_sys::core::utf16_len ](bytes: &[u8]) -> (r: usize)
    ensures
        r <= bytes@.len(),
        valid_utf8(bytes@) ==> r == encode_utf16(decode_utf8(bytes@)).len(),
;

/// The encoding of one more character extends the encoding of a prefix.
proof fn lemma_encode_utf16_prefix(chars: Seq<char>, k: int)
    requires
        0 <= k < chars.len(),
    ensures
        encode_utf16(chars.subrange(0, k + 1)) == encode_utf16(chars.subrange(0, k))
            + utf16_of_scalar(chars[k] as u32),
{
    let c = seq![chars[k]];
    assert(chars.subrange(0, k + 1) =~= chars.subrange(0, k) + c);
    lemma_encode_utf16_concat(chars.subrange(0, k), c);
    assert(c.drop_first() =~= Seq::<char>::empty());
    assert(encode_utf16(c) =~= utf16_of_scalar(chars[k] as u32) + encode_utf16(
        Seq::<char>::empty(),
    ));
    assert(encode_utf16(Seq::<char>::empty()) =~= Seq::<u16>::empty());
}

/// The UTF-8 encoding of a text starts with the encoding of its first character.
proof fn lemma_encode_utf8_first(chars: Seq<char>)
    requires
        chars.len() > 0,
    ensures
        valid_first_scalar(encode_utf8(chars)),
        decode_first_scalar(encode_utf8(chars)) == chars[0] as u32,
        encode_utf8(chars).subrange(
            length_of_first_scalar(encode_utf8(chars)),
            encode_utf8(chars).len() as int,
        ) == encode_utf8(chars.drop_first()),
{
    encode_utf8_first_scalar(chars);
    let bytes = encode_utf8(chars);
    assert(bytes.subrange(length_of_first_scalar(bytes), bytes.len() as int) =~= encode_utf8(
        chars.drop_first(),
    ));
}

/// Converts text into null-terminated UTF-16: each scalar of the basic plane
/// becomes one unit, each one above it a surrogate pair, and a zero unit ends
/// the sequence (empty text gives the terminator alone).
pub fn str_to_u16(str: &str) -> (r: Vec<u16>)
    ensures
        r@ == wide_of(str@),
{
    let bytes_src: &[u8] = str.as_bytes();
    proof {
        encode_utf8_valid_utf8(str@);
        encode_utf8_decode_utf8(str@);
    }
    let len_u16_with_null: usize = windows_sys::core::utf16_len(bytes_src).saturating_add(1);
    let mut ret_vec: Vec<u16> = Vec::with_capacity(len_u16_with_null);
    let ghost chars = str@;
    let ghost mut k: int = 0;
    let mut idx_src: usize = 0;
    let n_src: usize = bytes_src.len();
    assert(bytes_src@.subrange(0, bytes_src@.len() as int) =~= bytes_src@);
    assert(chars.subrange(0, chars.len() as int) =~= chars);
    assert(chars.subrange(0, 0) =~= Seq::<char>::empty());
    loop
        invariant
            bytes_src@ == encode_utf8(chars),
            n_src == bytes_src@.len(),
            0 <= k <= chars.len(),
            idx_src <= bytes_src@.len(),
            bytes_src@.subrange(idx_src as int, bytes_src@.len() as int) == encode_utf8(
                chars.subrange(k, chars.len() as int),
            ),
            ret_vec@ == encode_utf16(chars.subrange(0, k)),
        ensures
            ret_vec@ == encode_utf16(chars),
        decreases bytes_src@.len() - idx_src,
    {
        let ghost rest = chars.subrange(k, chars.len() as int);
        let ghost old_idx = idx_src as int;
        proof {
            if k < chars.len() {
                lemma_encode_utf8_first(rest);
                let tail = encode_utf8(rest);
                assert(length_of_first_scalar(tail) <= tail.len());
                assert(rest.drop_first() =~= chars.subrange(k + 1, chars.len() as int));
            } else {
                assert(rest =~= Seq::<char>::empty());
                assert(chars.subrange(0, k) =~= chars);
            }
        }
        match windows_sys::core::decode_utf8_char(bytes_src, idx_src) {
            None => {
                break ;
            },
            Some((code, idx_src_new)) => {
                proof {
                    lemma_encode_utf16_prefix(chars, k);
                    char_is_scalar(chars[k]);
                }
                idx_src = idx_src_new;
                if code <= 0xffff {
                    ret_vec.push(code as u16);
                } else {
                    let v: u32 = code - 0x10000;
                    assert(v >> 10u32 == v / 0x400 && v & 0x3ffu32 == v % 0x400) by (bit_vector);
                    ret_vec.push(0xd800 + (v >> 10) as u16);
                    ret_vec.push(0xdc00 + (v & 0x3ff) as u16);
                }
                proof {
                    k = k + 1;
                    let n = bytes_src@.len() as int;
                    let tail = bytes_src@.subrange(old_idx, n);
                    assert(tail == encode_utf8(rest));
                    assert(idx_src as int == old_idx + length_of_first_scalar(tail));
                    let sub = bytes_src@.subrange(idx_src as int, n);
                    assert(sub =~= tail.subrange(length_of_first_scalar(tail), tail.len() as int));
                    assert(sub =~= encode_utf8(rest).subrange(
                        length_of_first_scalar(encode_utf8(rest)),
                        encode_utf8(rest).len() as int,
                    ));
                }
            },
        }
    }
    ret_vec.push(0);
    ret_vec
}

} // verus!
