use vstd::prelude::*;

use vstd::string::StringSliceAdditionalSpecFns;
use vstd::utf8::{
    char_u32_cast, decode_first_scalar, decode_utf8, decode_utf8_split, encode_utf8_decode_utf8,
    encode_utf8_valid_utf8, is_char_boundary, is_char_boundary_iff_not_is_continuation_byte,
    is_leading_byte_width_1, length_of_first_scalar, pop_first_scalar, valid_utf8,
    valid_utf8_split,
};

verus! {

/// The characters of `s`, in order.
pub fn chars_of(s: &str) -> (res: Vec<char>)
    ensures
        res@ == s@,
{
    let mut res: Vec<char> = Vec::new();
    for c in it: s.chars()
        invariant
            res@ == it.seq().take(it.index() as int),
            it.seq() == s@,
    {
        res.push(c);
    }
    res
}


/// Decoding UTF-8 bytes that hold no space byte gives text with no space.
proof fn lemma_no_space_byte_no_space_char(bytes: Seq<u8>)
    requires
        valid_utf8(bytes),
        forall|j: int| 0 <= j < bytes.len() ==> bytes[j] != 32u8,
    ensures
        !decode_utf8(bytes).contains(' '),
    decreases bytes.len(),
{
    if bytes.len() > 0 {
        let rest = pop_first_scalar(bytes);
        let first = decode_first_scalar(bytes);
        let b0 = bytes[0];
        vstd::utf8::decode_utf8_first_scalar(bytes);
        if first as char == ' ' {
            let s: u32 = 32;
            assert(((' ' as u32) & 0x7f) as u8 == 32u8) by {
                assert(s & 0x7f == 32) by (bit_vector)
                    requires
                        s == 32,
                ;
            }
            assert(vstd::utf8::take_first_scalar(bytes)[0] == b0);
        }
        assert(first as char != ' ');
        assert forall|j: int| 0 <= j < rest.len() implies rest[j] != 32u8 by {
            assert(rest[j] == bytes[j + length_of_first_scalar(bytes)]);
        }
        lemma_no_space_byte_no_space_char(rest);
        let d = decode_utf8(bytes);
        assert(d =~= seq![first as char] + decode_utf8(rest));
        if d.contains(' ') {
            let w = choose|w: int| 0 <= w < d.len() && d[w] == ' ';
            if w > 0 {
                assert(decode_utf8(rest)[w - 1] == ' ');
            }
        }
    }
}


/// Splits `text` at its first space, as std's `str::split_once(' ')` does:
/// `None` when `text` has no space; otherwise the text before the first space and
/// the text after it.
pub fn split_at_first_space(text: &str) -> (res: Option<(&str, &str)>)
    ensures
        res is None <==> !text@.contains(' '),
        res matches Some(parts) ==> {
            &&& text@ == parts.0@ + seq![' '] + parts.1@
            &&& !parts.0@.contains(' ')
        },
{
    let bytes = text.as_bytes();
    let ghost b = bytes@;
    proof {
        encode_utf8_valid_utf8(text@);
        encode_utf8_decode_utf8(text@);
    }
    let n = bytes.len();
    let mut k: usize = 0;
    while k < n && bytes[k] != 32
        invariant
            k <= n,
            n == b.len(),
            bytes@ == b,
            forall|j: int| 0 <= j < k ==> b[j] != 32u8,
        decreases n - k,
    {
        k = k + 1;
    }
    if k == n {
        proof {
            lemma_no_space_byte_no_space_char(b);
        }
        return None;
    }
    proof {
        is_char_boundary_iff_not_is_continuation_byte(b, k as int);
        valid_utf8_split(b, k as int);
        decode_utf8_split(b, k as int);
    }
    let (head, rest) = text.split_at(k);
    let ghost s = b.subrange(k as int, n as int);
    proof {
        assert(rest.spec_bytes() =~= s);
        assert(s[0] == 32u8);
        reveal_with_fuel(is_char_boundary, 2);
        assert(is_char_boundary(s, 1));
        valid_utf8_split(s, 1);
        decode_utf8_split(s, 1);
    }
    let (space, tail) = rest.split_at(1);
    proof {
        encode_utf8_decode_utf8(head@);
        encode_utf8_decode_utf8(rest@);
        encode_utf8_decode_utf8(space@);
        encode_utf8_decode_utf8(tail@);
        let one = s.subrange(0, 1);
        assert(space.spec_bytes() =~= one);
        let v: u8 = 32;
        assert(v & 0x7f == 32) by (bit_vector)
            requires
                v == 32,
        ;
        assert(decode_first_scalar(one) == 32u32);
        char_u32_cast(' ', 32u32);
        assert(pop_first_scalar(one) =~= Seq::<u8>::empty());
        assert(decode_utf8(one) =~= seq![' ']);
        assert(head.spec_bytes() =~= b.subrange(0, k as int));
        lemma_no_space_byte_no_space_char(b.subrange(0, k as int));
        assert(text@ =~= head@ + seq![' '] + tail@);
        assert(text@[head@.len() as int] == ' ');
    }
    Some((head, tail))
}

} // verus!
