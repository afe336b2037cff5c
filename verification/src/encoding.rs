use vstd::prelude::*;
use vstd::string::*;
use crate::text::push_char;

verus! {

/// Bytes that pass through query encoding unchanged: ASCII letters, digits and `-_.~`.
pub open spec fn is_unreserved_byte(b: u8) -> bool {
    ||| 0x41 <= b <= 0x5a
    ||| 0x61 <= b <= 0x7a
    ||| 0x30 <= b <= 0x39
    ||| b == 0x2d
    ||| b == 0x5f
    ||| b == 0x2e
    ||| b == 0x7e
}

/// The upper-case hexadecimal digit for a value below 16.
pub open spec fn hex_digit(n: u8) -> char
    recommends
        n < 16,
{
    if n < 10 {
        (0x30 + n) as char
    } else {
        (0x41 + n - 10) as char
    }
}

/// How one byte of a query value is written in a URL query.
pub open spec fn encode_byte(b: u8) -> Seq<char> {
    if is_unreserved_byte(b) {
        seq![b as char]
    } else if b == 0x20 {
        seq!['+']
    } else {
        seq!['%', hex_digit(b / 16), hex_digit(b % 16)]
    }
}

/// The query encoding of a byte sequence, byte by byte.
pub open spec fn encode_query_bytes(bytes: Seq<u8>) -> Seq<char>
    decreases bytes.len(),
{
    if bytes.len() == 0 {
        Seq::empty()
    } else {
        encode_query_bytes(bytes.drop_last()) + encode_byte(bytes.last())
    }
}

fn hex_digit_exec(n: u8) -> (c: char)
    requires
        n < 16,
    ensures
        c == hex_digit(n),
{
    if n < 10 {
        (0x30 + n) as char
    } else {
        (0x41 + n - 10) as char
    }
}

/// Encodes a value for a URL query: unreserved ASCII bytes stay, a space becomes `+`,
/// every other byte of the UTF-8 encoding becomes `%XX` with upper-case hex digits.
pub fn encode_query_value(value: &str) -> (encoded: String)
    ensures
        encoded@ == encode_query_bytes(value.spec_bytes()),
{
    let bytes = value.as_bytes();
    let mut out = String::new();
    let mut i: usize = 0;
    while i < bytes.len()
        invariant
            bytes@ == value.spec_bytes(),
            i <= bytes@.len(),
            out@ == encode_query_bytes(bytes@.take(i as int)),
        decreases bytes@.len() - i,
    {
        let b = bytes[i];
        proof {
            assert(bytes@.take(i + 1).drop_last() =~= bytes@.take(i as int));
        }
        if (0x41 <= b && b <= 0x5a) || (0x61 <= b && b <= 0x7a) || (0x30 <= b && b <= 0x39)
            || b == 0x2d || b == 0x5f || b == 0x2e || b == 0x7e {
            push_char(&mut out, b as char);
        } else if b == 0x20 {
            push_char(&mut out, '+');
        } else {
            push_char(&mut out, '%');
            push_char(&mut out, hex_digit_exec(b / 16));
            push_char(&mut out, hex_digit_exec(b % 16));
        }
        i = i + 1;
    }
    proof {
        assert(bytes@.take(i as int) =~= bytes@);
    }
    out
}

/// The characters a query encoding may contain: ASCII letters and digits, `-_.~`, `+` and `%`.
pub open spec fn is_query_safe_char(c: char) -> bool {
    ||| is_unreserved_byte(c as u8) && (c as u32) < 0x80
    ||| c == '+'
    ||| c == '%'
}

/// An encoded query value only holds URL-safe characters: it can never end the value early
/// (`&`, `#`), start another parameter (`=`), or hold a space.
pub proof fn law_encoding_is_query_safe(bytes: Seq<u8>)
    ensures
        forall|i: int|
            0 <= i < encode_query_bytes(bytes).len() ==> is_query_safe_char(
                #[trigger] encode_query_bytes(bytes)[i],
            ),
    decreases bytes.len(),
{
    if bytes.len() > 0 {
        law_encoding_is_query_safe(bytes.drop_last());
        let b = bytes.last();
        let hi = b / 16;
        let lo = b % 16;
        assert(is_query_safe_char(hex_digit(hi)));
        assert(is_query_safe_char(hex_digit(lo)));
        let prev = encode_query_bytes(bytes.drop_last());
        let tail = encode_byte(b);
        assert forall|i: int| 0 <= i < tail.len() implies is_query_safe_char(#[trigger] tail[i]) by {
        }
        assert forall|i: int| 0 <= i < (prev + tail).len() implies is_query_safe_char(#[trigger] (prev + tail)[i]) by {
            if i < prev.len() {
                assert((prev + tail)[i] == prev[i]);
            } else {
                assert((prev + tail)[i] == tail[i - prev.len()]);
            }
        }
    }
}

/// The value of an upper-case hexadecimal digit.
pub open spec fn hex_value(c: char) -> int {
    if '0' <= c <= '9' {
        c as int - 0x30
    } else {
        c as int - 0x41 + 10
    }
}

/// Reads a query encoding back into bytes: `%XX` is the byte `XX`, `+` a space, and any other
/// character stands for itself.
pub open spec fn decode_query_chars(s: Seq<char>) -> Seq<u8>
    decreases s.len(),
{
    if s.len() == 0 {
        Seq::empty()
    } else if s[0] == '%' && s.len() >= 3 {
        seq![(hex_value(s[1]) * 16 + hex_value(s[2])) as u8] + decode_query_chars(s.subrange(3, s.len() as int))
    } else if s[0] == '+' {
        seq![0x20u8] + decode_query_chars(s.drop_first())
    } else {
        seq![s[0] as u8] + decode_query_chars(s.drop_first())
    }
}

proof fn lemma_encode_first(bytes: Seq<u8>)
    requires
        bytes.len() > 0,
    ensures
        encode_query_bytes(bytes) == encode_byte(bytes[0]) + encode_query_bytes(bytes.drop_first()),
    decreases bytes.len(),
{
    if bytes.len() == 1 {
        assert(bytes.drop_last() =~= Seq::<u8>::empty());
        assert(bytes.drop_first() =~= Seq::<u8>::empty());
        assert(encode_byte(bytes[0]) + Seq::<char>::empty() =~= encode_byte(bytes[0]));
        assert(Seq::<char>::empty() + encode_byte(bytes[0]) =~= encode_byte(bytes[0]));
    } else {
        let d = bytes.drop_last();
        lemma_encode_first(d);
        assert(d.drop_first() =~= bytes.drop_first().drop_last());
        assert(d[0] == bytes[0]);
        assert(bytes.drop_first().last() == bytes.last());
        assert(encode_byte(bytes[0]) + encode_query_bytes(d.drop_first()) + encode_byte(bytes.last())
            =~= encode_byte(bytes[0]) + (encode_query_bytes(d.drop_first()) + encode_byte(bytes.last())));
    }
}

proof fn lemma_decode_after_byte(b: u8, rest: Seq<char>)
    ensures
        decode_query_chars(encode_byte(b) + rest) == seq![b] + decode_query_chars(rest),
{
    let e = encode_byte(b) + rest;
    if is_unreserved_byte(b) {
        assert(e[0] == b as char);
        assert(e.drop_first() =~= rest);
        assert((b as char) as u8 == b);
    } else if b == 0x20 {
        assert(e[0] == '+');
        assert(e.drop_first() =~= rest);
    } else {
        let hi = b / 16;
        let lo = b % 16;
        assert(e[0] == '%');
        assert(e[1] == hex_digit(hi));
        assert(e[2] == hex_digit(lo));
        assert(e.subrange(3, e.len() as int) =~= rest);
        assert(hex_value(hex_digit(hi)) == hi);
        assert(hex_value(hex_digit(lo)) == lo);
        assert(hi * 16 + lo == b);
    }
}

/// Reading a query encoding back gives the bytes that were encoded.
pub proof fn law_decoding_undoes_encoding(bytes: Seq<u8>)
    ensures
        decode_query_chars(encode_query_bytes(bytes)) == bytes,
    decreases bytes.len(),
{
    if bytes.len() == 0 {
    } else {
        lemma_encode_first(bytes);
        lemma_decode_after_byte(bytes[0], encode_query_bytes(bytes.drop_first()));
        law_decoding_undoes_encoding(bytes.drop_first());
        assert(seq![bytes[0]] + bytes.drop_first() =~= bytes);
    }
}

/// Query encoding loses nothing: two values with the same encoding are the same bytes.
pub proof fn law_encoding_is_injective(a: Seq<u8>, b: Seq<u8>)
    requires
        encode_query_bytes(a) == encode_query_bytes(b),
    ensures
        a == b,
{
    law_decoding_undoes_encoding(a);
    law_decoding_undoes_encoding(b);
}

/// Each byte is encoded on its own: ASCII letters, digits and `-_.~` stand for themselves, a
/// space becomes `+`, and every other byte becomes `%` and two upper-case hexadecimal digits
/// that spell the byte.
pub proof fn law_one_byte_encoding(b: u8)
    ensures
        (0x41 <= b <= 0x5a || 0x61 <= b <= 0x7a || 0x30 <= b <= 0x39 || b == 0x2d || b == 0x5f || b
            == 0x2e || b == 0x7e) ==> encode_query_bytes(seq![b]) == seq![b as char],
        b == 0x20 ==> encode_query_bytes(seq![b]) == seq!['+'],
        !(0x41 <= b <= 0x5a || 0x61 <= b <= 0x7a || 0x30 <= b <= 0x39 || b == 0x2d || b == 0x5f || b
            == 0x2e || b == 0x7e || b == 0x20) ==> {
            let e = encode_query_bytes(seq![b]);
            &&& e.len() == 3
            &&& e[0] == '%'
            &&& ('0' <= e[1] <= '9' || 'A' <= e[1] <= 'F')
            &&& ('0' <= e[2] <= '9' || 'A' <= e[2] <= 'F')
            &&& (e[1] as int - if e[1] <= '9' { 0x30int } else { 0x37int }) * 16 + (e[2] as int - if e[2] <= '9' {
                0x30int
            } else {
                0x37int
            }) == b
        },
{
    assert(seq![b].drop_last() =~= Seq::<u8>::empty());
    assert(seq![b].last() == b);
    assert(encode_query_bytes(seq![b].drop_last()) == Seq::<char>::empty());
    assert(encode_query_bytes(seq![b]) == encode_query_bytes(seq![b].drop_last()) + encode_byte(b));
    assert(Seq::<char>::empty() + encode_byte(b) =~= encode_byte(b));
    assert(encode_query_bytes(seq![b]) == encode_byte(b));
    let hi = b / 16;
    let lo = b % 16;
    assert(hi < 16 && lo < 16);
    assert(hi * 16 + lo == b);
}

/// A value is encoded piece by piece: the encoding of two pieces put together is the encoding of
/// the first followed by the encoding of the second.
pub proof fn law_encoding_concatenates(a: Seq<u8>, b: Seq<u8>)
    ensures
        encode_query_bytes(a + b) == encode_query_bytes(a) + encode_query_bytes(b),
    decreases b.len(),
{
    if b.len() == 0 {
        assert(a + b =~= a);
        assert(encode_query_bytes(a) + Seq::<char>::empty() =~= encode_query_bytes(a));
    } else {
        law_encoding_concatenates(a, b.drop_last());
        assert((a + b).drop_last() =~= a + b.drop_last());
        assert((a + b).last() == b.last());
        assert(encode_query_bytes(a) + encode_query_bytes(b.drop_last()) + encode_byte(b.last())
            =~= encode_query_bytes(a) + (encode_query_bytes(b.drop_last()) + encode_byte(b.last())));
    }
}

} // verus!
