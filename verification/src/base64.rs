use vstd::prelude::*;

use crate::text::push_char;

verus! {

/// The character of the standard base64 alphabet (RFC 4648) that stands for
/// the six-bit value `v`.
pub open spec fn sextet_char(v: u8) -> char {
    if v < 26 {
        (65 + v) as char
    } else if v < 52 {
        (97 + (v - 26)) as char
    } else if v < 62 {
        (48 + (v - 52)) as char
    } else if v == 62 {
        '+'
    } else {
        '/'
    }
}

/// The four characters that encode the group `b0 b1 b2` of which the first
/// `n` bytes (1, 2 or 3) are real; missing bytes count as zero and their
/// characters are replaced by `=` padding.
pub open spec fn group_chars(b0: u8, b1: u8, b2: u8, n: int) -> Seq<char> {
    let s0 = (b0 / 4) as u8;
    let s1 = ((b0 % 4) * 16 + b1 / 16) as u8;
    let s2 = ((b1 % 16) * 4 + b2 / 64) as u8;
    let s3 = (b2 % 64) as u8;
    seq![
        sextet_char(s0),
        sextet_char(s1),
        if n > 1 { sextet_char(s2) } else { '=' },
        if n > 2 { sextet_char(s3) } else { '=' },
    ]
}

/// Standard base64 (RFC 4648, with `=` padding) of `bytes`.
pub open spec fn base64_spec(bytes: Seq<u8>) -> Seq<char>
    decreases bytes.len(),
{
    if bytes.len() == 0 {
        seq![]
    } else {
        let b1 = if bytes.len() > 1 { bytes[1] } else { 0u8 };
        let b2 = if bytes.len() > 2 { bytes[2] } else { 0u8 };
        if bytes.len() <= 3 {
            group_chars(bytes[0], b1, b2, bytes.len() as int)
        } else {
            group_chars(bytes[0], b1, b2, 3) + base64_spec(bytes.skip(3))
        }
    }
}

/// Whether `c` is one of the 64 characters of the base64 alphabet.
pub open spec fn in_alphabet(c: char) -> bool {
    ||| 'A' <= c <= 'Z'
    ||| 'a' <= c <= 'z'
    ||| '0' <= c <= '9'
    ||| c == '+'
    ||| c == '/'
}

/// The base64 alphabet of RFC 4648, written out: the character at position
/// `v` stands for the six-bit value `v`.
pub open spec fn rfc4648_alphabet() -> Seq<char> {
    seq![
        'A', 'B', 'C', 'D', 'E', 'F', 'G', 'H', 'I', 'J', 'K', 'L', 'M', 'N', 'O', 'P',
        'Q', 'R', 'S', 'T', 'U', 'V', 'W', 'X', 'Y', 'Z', 'a', 'b', 'c', 'd', 'e', 'f',
        'g', 'h', 'i', 'j', 'k', 'l', 'm', 'n', 'o', 'p', 'q', 'r', 's', 't', 'u', 'v',
        'w', 'x', 'y', 'z', '0', '1', '2', '3', '4', '5', '6', '7', '8', '9', '+', '/',
    ]
}

/// Each six-bit value is written as its character of the RFC 4648 alphabet.
pub proof fn lemma_sextet_is_rfc4648(v: u8)
    requires
        v < 64,
    ensures
        sextet_char(v) == rfc4648_alphabet()[v as int],
{
    let a = rfc4648_alphabet();
    assert(a.len() == 64);
    assert(a =~= seq![
        'A', 'B', 'C', 'D', 'E', 'F', 'G', 'H', 'I', 'J', 'K', 'L', 'M', 'N', 'O', 'P',
        'Q', 'R', 'S', 'T', 'U', 'V', 'W', 'X', 'Y', 'Z', 'a', 'b', 'c', 'd', 'e', 'f',
        'g', 'h', 'i', 'j', 'k', 'l', 'm', 'n', 'o', 'p', 'q', 'r', 's', 't', 'u', 'v',
        'w', 'x', 'y', 'z', '0', '1', '2', '3', '4', '5', '6', '7', '8', '9', '+', '/',
    ]);
}

/// Encoding goes group by group: for a first part whose length is a multiple
/// of three, the encoding of the whole is the encodings of the parts, joined.
pub proof fn lemma_base64_concat(a: Seq<u8>, b: Seq<u8>)
    requires
        a.len() % 3 == 0,
    ensures
        base64_spec(a + b) == base64_spec(a) + base64_spec(b),
    decreases a.len(),
{
    if a.len() == 0 {
        assert(a + b =~= b);
        assert(base64_spec(a) + base64_spec(b) =~= base64_spec(b));
    } else if b.len() == 0 && a.len() == 3 {
        assert(a + b =~= a);
        assert(base64_spec(a) + base64_spec(b) =~= base64_spec(a));
    } else {
        let ab = a + b;
        assert(ab[0] == a[0] && ab[1] == a[1] && ab[2] == a[2]);
        assert(ab.skip(3) =~= a.skip(3) + b);
        lemma_base64_concat(a.skip(3), b);
        if a.len() == 3 {
            assert(a.skip(3) =~= Seq::<u8>::empty());
            assert(a.skip(3) + b =~= b);
        }
        assert(base64_spec(ab) =~= base64_spec(a) + base64_spec(b));
    }
}

/// One group of input bytes, bit by bit: three bytes give four characters,
/// taking the top six bits of the first byte, then its low two bits with the
/// top four of the second, then the second's low four bits with the top two
/// of the third, then the third's low six bits; a group of two bytes ends with
/// one `=`, a group of one byte with two. With the law above this fixes the
/// encoding of every input.
pub proof fn lemma_base64_group(b0: u8, b1: u8, b2: u8)
    ensures
        base64_spec(seq![b0, b1, b2]) == seq![
            rfc4648_alphabet()[(b0 >> 2u8) as int],
            rfc4648_alphabet()[(((b0 & 3u8) << 4u8) | (b1 >> 4u8)) as int],
            rfc4648_alphabet()[(((b1 & 15u8) << 2u8) | (b2 >> 6u8)) as int],
            rfc4648_alphabet()[(b2 & 63u8) as int],
        ],
        base64_spec(seq![b0, b1]) == seq![
            rfc4648_alphabet()[(b0 >> 2u8) as int],
            rfc4648_alphabet()[(((b0 & 3u8) << 4u8) | (b1 >> 4u8)) as int],
            rfc4648_alphabet()[((b1 & 15u8) << 2u8) as int],
            '=',
        ],
        base64_spec(seq![b0]) == seq![
            rfc4648_alphabet()[(b0 >> 2u8) as int],
            rfc4648_alphabet()[((b0 & 3u8) << 4u8) as int],
            '=',
            '=',
        ],
{
    assert(b0 >> 2u8 == b0 / 4 && ((b0 & 3u8) << 4u8) | (b1 >> 4u8) == (b0 % 4) * 16 + b1 / 16
        && ((b1 & 15u8) << 2u8) | (b2 >> 6u8) == (b1 % 16) * 4 + b2 / 64 && b2 & 63u8 == b2
        % 64 && (b1 & 15u8) << 2u8 == (b1 % 16) * 4 && (b0 & 3u8) << 4u8 == (b0 % 4) * 16
        && b0 / 4 < 64 && (b0 % 4) * 16 + b1 / 16 < 64 && (b1 % 16) * 4 + b2 / 64 < 64 && (b1
        % 16) * 4 < 64 && (b0 % 4) * 16 < 64) by (bit_vector);
    lemma_sextet_is_rfc4648((b0 / 4) as u8);
    lemma_sextet_is_rfc4648(((b0 % 4) * 16 + b1 / 16) as u8);
    lemma_sextet_is_rfc4648(((b1 % 16) * 4 + b2 / 64) as u8);
    lemma_sextet_is_rfc4648((b2 % 64) as u8);
    lemma_sextet_is_rfc4648(((b1 % 16) * 4) as u8);
    lemma_sextet_is_rfc4648(((b0 % 4) * 16) as u8);
    lemma_sextet_is_rfc4648(((b0 % 4) * 16 + 0u8 / 16) as u8);
    lemma_sextet_is_rfc4648(((b1 % 16) * 4 + 0u8 / 64) as u8);
    assert(base64_spec(seq![b0, b1, b2]) =~= group_chars(b0, b1, b2, 3));
    assert(base64_spec(seq![b0, b1]) =~= group_chars(b0, b1, 0, 2));
    assert(base64_spec(seq![b0]) =~= group_chars(b0, 0, 0, 1));
}

/// The number of `=` characters that end the encoding of `n` bytes.
pub open spec fn padding(n: nat) -> nat {
    ((3 - n % 3) % 3) as nat
}

proof fn lemma_sextet_char(v: u8, w: u8)
    requires
        v < 64,
        w < 64,
    ensures
        in_alphabet(sextet_char(v)),
        sextet_char(v) != '=',
        sextet_char(v) == sextet_char(w) ==> v == w,
{
}

proof fn lemma_group_bytes(b0: u8, b1: u8, b2: u8)
    ensures
        b0 / 4 < 64,
        (b0 % 4) * 16 + b1 / 16 < 64,
        (b1 % 16) * 4 + b2 / 64 < 64,
        b2 % 64 < 64,
        b0 == (b0 / 4) * 4 + ((b0 % 4) * 16 + b1 / 16) / 16,
        b1 == (((b0 % 4) * 16 + b1 / 16) % 16) * 16 + ((b1 % 16) * 4 + b2 / 64) / 4,
        b2 == (((b1 % 16) * 4 + b2 / 64) % 4) * 64 + b2 % 64,
        b1 == 0 ==> ((b0 % 4) * 16 + b1 / 16) % 16 == 0,
        b2 == 0 ==> ((b1 % 16) * 4 + b2 / 64) % 4 == 0,
{
    assert(b0 / 4 < 64 && (b0 % 4) * 16 + b1 / 16 < 64 && (b1 % 16) * 4 + b2 / 64 < 64 && b2
        % 64 < 64 && b0 == (b0 / 4) * 4 + ((b0 % 4) * 16 + b1 / 16) / 16 && b1 == (((b0 % 4)
        * 16 + b1 / 16) % 16) * 16 + ((b1 % 16) * 4 + b2 / 64) / 4 && b2 == (((b1 % 16) * 4
        + b2 / 64) % 4) * 64 + b2 % 64 && (b1 == 0 ==> ((b0 % 4) * 16 + b1 / 16) % 16 == 0)
        && (b2 == 0 ==> ((b1 % 16) * 4 + b2 / 64) % 4 == 0)) by (bit_vector);
}

/// The encoding of `n` bytes is `4 * ceil(n / 3)` characters long.
pub proof fn lemma_base64_len(bytes: Seq<u8>)
    ensures
        base64_spec(bytes).len() == 4 * ((bytes.len() + 2) / 3),
    decreases bytes.len(),
{
    if bytes.len() > 3 {
        lemma_base64_len(bytes.skip(3));
    }
}

/// Every character of an encoding is from the base64 alphabet, except the
/// padding: as many `=` at the end as the last group lacks bytes.
pub proof fn lemma_base64_chars(bytes: Seq<u8>)
    ensures
        forall|k: int|
            0 <= k < base64_spec(bytes).len() - padding(bytes.len()) ==> in_alphabet(
                #[trigger] base64_spec(bytes)[k],
            ),
        forall|k: int|
            base64_spec(bytes).len() - padding(bytes.len()) <= k < base64_spec(bytes).len()
                ==> #[trigger] base64_spec(bytes)[k] == '=',
    decreases bytes.len(),
{
    lemma_base64_len(bytes);
    if bytes.len() > 0 {
        let b1 = if bytes.len() > 1 { bytes[1] } else { 0u8 };
        let b2 = if bytes.len() > 2 { bytes[2] } else { 0u8 };
        lemma_group_bytes(bytes[0], b1, b2);
        lemma_sextet_char((bytes[0] / 4) as u8, 0);
        lemma_sextet_char(((bytes[0] % 4) * 16 + b1 / 16) as u8, 0);
        lemma_sextet_char(((b1 % 16) * 4 + b2 / 64) as u8, 0);
        lemma_sextet_char((b2 % 64) as u8, 0);
        if bytes.len() > 3 {
            let rest = bytes.skip(3);
            lemma_base64_chars(rest);
            lemma_base64_len(rest);
            assert(padding(bytes.len()) == padding(rest.len()));
            let g = group_chars(bytes[0], b1, b2, 3);
            assert forall|k: int|
                0 <= k < base64_spec(bytes).len() - padding(bytes.len()) implies in_alphabet(
                #[trigger] base64_spec(bytes)[k],
            ) by {
                if k >= 4 {
                    assert(base64_spec(bytes)[k] == base64_spec(rest)[k - 4]);
                }
            }
            assert forall|k: int|
                base64_spec(bytes).len() - padding(bytes.len()) <= k < base64_spec(bytes).len()
                    implies #[trigger] base64_spec(bytes)[k] == '=' by {
                assert(base64_spec(bytes)[k] == base64_spec(rest)[k - 4]);
            }
        }
    }
}

proof fn lemma_group_injective(a0: u8, a1: u8, a2: u8, na: int, b0: u8, b1: u8, b2: u8, nb: int)
    requires
        1 <= na <= 3,
        1 <= nb <= 3,
        na < 2 ==> a1 == 0,
        na < 3 ==> a2 == 0,
        nb < 2 ==> b1 == 0,
        nb < 3 ==> b2 == 0,
        group_chars(a0, a1, a2, na) == group_chars(b0, b1, b2, nb),
    ensures
        na == nb,
        a0 == b0,
        a1 == b1,
        a2 == b2,
{
    let ga = group_chars(a0, a1, a2, na);
    let gb = group_chars(b0, b1, b2, nb);
    lemma_group_bytes(a0, a1, a2);
    lemma_group_bytes(b0, b1, b2);
    let sa0 = (a0 / 4) as u8;
    let sa1 = ((a0 % 4) * 16 + a1 / 16) as u8;
    let sa2 = ((a1 % 16) * 4 + a2 / 64) as u8;
    let sa3 = (a2 % 64) as u8;
    let sb0 = (b0 / 4) as u8;
    let sb1 = ((b0 % 4) * 16 + b1 / 16) as u8;
    let sb2 = ((b1 % 16) * 4 + b2 / 64) as u8;
    let sb3 = (b2 % 64) as u8;
    lemma_sextet_char(sa0, sb0);
    lemma_sextet_char(sa1, sb1);
    lemma_sextet_char(sa2, sb2);
    lemma_sextet_char(sa3, sb3);
    assert(ga[0] == gb[0] && ga[1] == gb[1] && ga[2] == gb[2] && ga[3] == gb[3]);
    assert(na == nb);
}

/// Distinct byte strings have distinct encodings: nothing is lost by encoding.
pub proof fn lemma_base64_injective(a: Seq<u8>, b: Seq<u8>)
    requires
        base64_spec(a) == base64_spec(b),
    ensures
        a == b,
    decreases a.len(),
{
    lemma_base64_len(a);
    lemma_base64_len(b);
    if a.len() == 0 || b.len() == 0 {
        assert(a.len() == 0 && b.len() == 0);
        assert(a =~= b);
    } else {
        let a1 = if a.len() > 1 { a[1] } else { 0u8 };
        let a2 = if a.len() > 2 { a[2] } else { 0u8 };
        let b1 = if b.len() > 1 { b[1] } else { 0u8 };
        let b2 = if b.len() > 2 { b[2] } else { 0u8 };
        let na: int = if a.len() > 3 { 3 } else { a.len() as int };
        let nb: int = if b.len() > 3 { 3 } else { b.len() as int };
        let ea = base64_spec(a);
        let eb = base64_spec(b);
        let ga = group_chars(a[0], a1, a2, na);
        let gb = group_chars(b[0], b1, b2, nb);
        assert(ea.subrange(0, 4) =~= ga);
        assert(eb.subrange(0, 4) =~= gb);
        lemma_group_injective(a[0], a1, a2, na, b[0], b1, b2, nb);
        if a.len() > 3 {
            assert(b.len() > 3);
            assert(ea.skip(4) =~= base64_spec(a.skip(3)));
            assert(eb.skip(4) =~= base64_spec(b.skip(3)));
            lemma_base64_injective(a.skip(3), b.skip(3));
            assert(a =~= seq![a[0], a[1], a[2]] + a.skip(3));
            assert(b =~= seq![b[0], b[1], b[2]] + b.skip(3));
        } else {
            assert(ea.len() == 4);
            assert(eb.len() == 4);
            assert(b.len() <= 3);
            assert(a =~= b);
        }
    }
}

fn sextet(v: u8) -> (c: char)
    requires
        v < 64,
    ensures
        c == sextet_char(v),
{
    if v < 26 {
        (65 + v) as char
    } else if v < 52 {
        (97 + (v - 26)) as char
    } else if v < 62 {
        (48 + (v - 52)) as char
    } else if v == 62 {
        '+'
    } else {
        '/'
    }
}

/// Encodes `bytes` as standard base64 with `=` padding.
pub fn to_base64(bytes: &[u8]) -> (result: String)
    ensures
        result@ == base64_spec(bytes@),
{
    let n = bytes.len();
    let mut result = String::new();
    let mut i: usize = 0;
    assert(bytes@.skip(0) =~= bytes@);
    while i < n
        invariant
            n == bytes@.len(),
            i <= n,
            base64_spec(bytes@) == result@ + base64_spec(bytes@.skip(i as int)),
        decreases n - i,
    {
        let ghost tail = bytes@.skip(i as int);
        let left = n - i;
        let b0 = bytes[i];
        let b1 = if left > 1 { bytes[i + 1] } else { 0 };
        let b2 = if left > 2 { bytes[i + 2] } else { 0 };
        assert(tail[0] == b0);
        assert(left > 1 ==> tail[1] == b1);
        assert(left > 2 ==> tail[2] == b2);
        let ghost before = result@;
        push_char(&mut result, sextet(b0 / 4));
        push_char(&mut result, sextet((b0 % 4) * 16 + b1 / 16));
        if left > 1 {
            push_char(&mut result, sextet((b1 % 16) * 4 + b2 / 64));
        } else {
            push_char(&mut result, '=');
        }
        if left > 2 {
            push_char(&mut result, sextet(b2 % 64));
        } else {
            push_char(&mut result, '=');
        }
        let ghost n_real: int = if left > 3 { 3 } else { left as int };
        assert(result@ =~= before + group_chars(b0, b1, b2, n_real));
        if left <= 3 {
            assert(base64_spec(bytes@.skip(n as int)) =~= Seq::<char>::empty());
            assert(result@ =~= before + base64_spec(tail));
            i = n;
        } else {
            assert(tail.skip(3) =~= bytes@.skip(i + 3));
            i = i + 3;
        }
    }
    assert(base64_spec(bytes@.skip(n as int)) =~= Seq::<char>::empty());
    result
}

} // verus!
