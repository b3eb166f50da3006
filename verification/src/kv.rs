//! Parsing of `KEY=value` pairs from the command line.

use vstd::prelude::*;
use vstd::string::StringSliceAdditionalSpecFns;
use vstd::utf8::*;

verus! {

/// The one-byte UTF-8 encoding of `'='`.
proof fn lemma_encode_scalar_of_eq()
    ensures
        encode_scalar('=' as u32) =~= seq![61u8],
{
    assert(((61u32 & 0x7F) as u8) == 61u8) by (bit_vector);
}

/// A character sequence containing `'='` encodes to a byte sequence
/// containing the byte 61, `'='`'s one-byte encoding.
proof fn lemma_eq_char_gives_eq_byte(chars: Seq<char>)
    requires
        chars.contains('='),
    ensures
        encode_utf8(chars).contains(61u8),
    decreases chars.len(),
{
    lemma_encode_scalar_of_eq();
    if chars[0] == '=' {
        assert(encode_utf8(chars)[0] == 61u8);
    } else {
        let k = choose|k: int| 0 <= k < chars.len() && chars[k] == '=';
        assert(chars.drop_first()[k - 1] == '=');
        assert(chars.drop_first().contains('='));
        lemma_eq_char_gives_eq_byte(chars.drop_first());
        let rest = encode_utf8(chars.drop_first());
        let m = choose|m: int| 0 <= m < rest.len() && rest[m] == 61u8;
        let head = encode_scalar(chars[0] as u32);
        assert(encode_utf8(chars)[head.len() + m] == 61u8);
    }
}

/// The byte index of the first `'='` byte, if any. A 61 byte in UTF-8 can
/// only be the encoding of `'='` itself, so searching bytes finds exactly
/// the character.
fn find_eq_byte(bytes: &[u8]) -> (r: Option<usize>)
    ensures
        match r {
            Some(i) => i < bytes@.len() && bytes@[i as int] == 61u8 && (forall|j: int|
                0 <= j < i ==> bytes@[j] != 61u8),
            None => forall|j: int| 0 <= j < bytes@.len() ==> bytes@[j] != 61u8,
        },
{
    let mut i: usize = 0;
    while i < bytes.len()
        invariant
            i <= bytes@.len(),
            forall|j: int| 0 <= j < i ==> bytes@[j] != 61u8,
        decreases bytes@.len() - i,
    {
        if bytes[i] == 61u8 {
            return Some(i);
        }
        i += 1;
    }
    None
}

/// Parse a single `KEY=value` pair: split the input at the first `'='`.
/// Returns the key (which therefore never contains `'='`) and the value
/// (everything after that first `'='`, further `'='` characters included),
/// or nothing when the input has no `'='` at all.
pub fn parse_key_val(s: &str) -> (r: Option<(String, String)>)
    ensures
        match r {
            Some(kv) => s@ == kv.0@ + seq!['='] + kv.1@ && !kv.0@.contains('='),
            None => !s@.contains('='),
        },
{
    proof {
        encode_utf8_valid_utf8(s@);
    }
    let bytes = s.as_bytes();
    match find_eq_byte(bytes) {
        None => {
            proof {
                if s@.contains('=') {
                    lemma_eq_char_gives_eq_byte(s@);
                }
            }
            None
        },
        Some(i) => {
            let ghost b = s.spec_bytes();
            let ghost n = b.len() as int;
            proof {
                is_char_boundary_iff_not_is_continuation_byte(b, i as int);
            }
            let (k_str, rest) = s.split_at(i);
            let ghost rb = rest.spec_bytes();
            proof {
                valid_utf8_split(b, i as int);
                assert(rb =~= b.subrange(i as int, n));
                assert(rb[0] == 61u8);
                assert(length_of_first_scalar(rb) == 1);
                assert(is_char_boundary(rb, 1)) by {
                    reveal_with_fuel(is_char_boundary, 3);
                }
            }
            let (_eq_str, v_str) = rest.split_at(1);
            let key = k_str.to_owned();
            let value = v_str.to_owned();
            proof {
                lemma_split_decomposition(s@, key@, value@, b, rb, i as int);
            }
            Some((key, value))
        },
    }
}

/// Splitting a valid encoding just before and just after a one-byte `'='`
/// character recovers the original character sequence as key, `'='`, value.
proof fn lemma_split_decomposition(
    chars: Seq<char>,
    key: Seq<char>,
    value: Seq<char>,
    b: Seq<u8>,
    rb: Seq<u8>,
    i: int,
)
    requires
        b == encode_utf8(chars),
        0 <= i < b.len(),
        b[i] == 61u8,
        forall|j: int| 0 <= j < i ==> b[j] != 61u8,
        is_char_boundary(b, i),
        rb == b.subrange(i, b.len() as int),
        is_char_boundary(rb, 1),
        encode_utf8(key) == b.subrange(0, i),
        encode_utf8(value) == rb.subrange(1, rb.len() as int),
    ensures
        chars == key + seq!['='] + value,
        !key.contains('='),
{
    let n = b.len() as int;
    encode_utf8_valid_utf8(chars);
    valid_utf8_split(b, i);
    decode_utf8_split(b, i);
    encode_utf8_decode_utf8(chars);
    encode_utf8_decode_utf8(key);
    encode_utf8_decode_utf8(value);
    // The remainder starts with the one-byte '=' scalar.
    valid_utf8_split(rb, 1);
    decode_utf8_split(rb, 1);
    let eq_bytes = rb.subrange(0, 1);
    assert(eq_bytes =~= seq![61u8]);
    assert(decode_first_scalar(eq_bytes) == 61) by {
        assert(((61u8 & 0x7F) as u32) == 61u32) by (bit_vector);
    }
    assert(pop_first_scalar(eq_bytes) =~= Seq::<u8>::empty());
    assert(decode_utf8(eq_bytes) =~= seq!['=']) by {
        reveal_with_fuel(decode_utf8, 3);
        assert(61u32 as char == '=');
    }
    assert(rb.subrange(1, rb.len() as int) == b.subrange(i, n).subrange(1, n - i));
    assert(chars =~= key + seq!['='] + value);
    // The key cannot contain '=': its encoding lies before the first 61 byte.
    if key.contains('=') {
        lemma_eq_char_gives_eq_byte(key);
        let m = choose|m: int| 0 <= m < encode_utf8(key).len() && encode_utf8(key)[m] == 61u8;
        assert(b[m] == 61u8);
    }
}

} // verus!
