use vstd::prelude::*;

verus! {

/// The uppercase hexadecimal digit for a nibble (`n < 16`).
pub open spec fn hex_digit(n: u8) -> char {
    if n < 10 {
        (48 + n) as char
    } else {
        (55 + n) as char
    }
}

/// Uppercase hexadecimal text of a byte sequence: two digits per byte, high nibble first.
pub open spec fn spec_hex_upper(b: Seq<u8>) -> Seq<char> {
    Seq::new(
        2 * b.len(),
        |i: int| if i % 2 == 0 { hex_digit(b[i / 2] / 16) } else { hex_digit(b[i / 2] % 16) },
    )
}

/// Calls `hex::encode_upper`, which maps every byte to the two characters of
/// `"0123456789ABCDEF"` indexed by its high and its low nibble, in order.
#[verifier::external_body]
fn encode_upper(data: &[u8]) -> (res: String)
    ensures
        res@ == spec_hex_upper(data@),
{
    hex::encode_upper(data)
}

/// Uppercase hexadecimal text of `bytes` (e.g. `[0x50, 0x4B]` gives `"504B"`).
pub fn hex_upper(bytes: &[u8]) -> (res: String)
    ensures
        res@ == spec_hex_upper(bytes@),
{
    encode_upper(bytes)
}

/// The value of an uppercase hexadecimal digit, if `c` is one.
pub open spec fn digit_value(c: char) -> Option<u8> {
    if '0' <= c && c <= '9' {
        Some((c as u32 - 48) as u8)
    } else if 'A' <= c && c <= 'F' {
        Some((c as u32 - 55) as u8)
    } else {
        None
    }
}

fn char_value(c: char) -> (res: Option<u8>)
    ensures
        res == digit_value(c),
{
    if '0' <= c && c <= '9' {
        Some((c as u32 - 48) as u8)
    } else if 'A' <= c && c <= 'F' {
        Some((c as u32 - 55) as u8)
    } else {
        None
    }
}

proof fn lemma_digit_roundtrip(n: u8)
    requires
        n < 16,
    ensures
        digit_value(hex_digit(n)) == Some(n),
{
}

proof fn lemma_value_roundtrip(c: char)
    requires
        digit_value(c) is Some,
    ensures
        digit_value(c).unwrap() < 16,
        hex_digit(digit_value(c).unwrap()) == c,
{
}

proof fn lemma_nibbles(h: u8, l: u8)
    requires
        h < 16,
        l < 16,
    ensures
        (h * 16 + l) / 16 == h,
        (h * 16 + l) % 16 == l,
        h * 16 + l < 256,
{
    assert((h * 16 + l) / 16 == h && (h * 16 + l) % 16 == l && h * 16 + l < 256)
        by (nonlinear_arith)
        requires
            h < 16,
            l < 16,
    ;
}

/// Different byte sequences have different hexadecimal texts.
pub proof fn lemma_hex_upper_injective(a: Seq<u8>, b: Seq<u8>)
    requires
        spec_hex_upper(a) == spec_hex_upper(b),
    ensures
        a == b,
{
    assert(spec_hex_upper(a).len() == 2 * a.len());
    assert(spec_hex_upper(b).len() == 2 * b.len());
    assert forall|i: int| 0 <= i < a.len() implies a[i] == b[i] by {
        let x = a[i];
        let y = b[i];
        assert(spec_hex_upper(a)[2 * i] == hex_digit(x / 16));
        assert(spec_hex_upper(b)[2 * i] == hex_digit(y / 16));
        assert(spec_hex_upper(a)[2 * i + 1] == hex_digit(x % 16));
        assert(spec_hex_upper(b)[2 * i + 1] == hex_digit(y % 16));
        lemma_digit_roundtrip(x / 16);
        lemma_digit_roundtrip(y / 16);
        lemma_digit_roundtrip(x % 16);
        lemma_digit_roundtrip(y % 16);
        assert(x == 16 * (x / 16) + x % 16) by (nonlinear_arith);
        assert(y == 16 * (y / 16) + y % 16) by (nonlinear_arith);
    }
    assert(a =~= b);
}

/// `s` is uppercase hexadecimal text: an even number of digits 0-9, A-F.
pub open spec fn is_hex_text(s: Seq<char>) -> bool {
    s.len() % 2 == 0 && forall|i: int| 0 <= i < s.len() ==> (#[trigger] digit_value(s[i])) is Some
}

/// The hexadecimal text of any bytes is well formed.
pub proof fn lemma_hex_upper_is_hex_text(d: Seq<u8>)
    ensures
        is_hex_text(spec_hex_upper(d)),
{
    let s = spec_hex_upper(d);
    assert(s.len() == 2 * d.len());
    assert forall|i: int| 0 <= i < s.len() implies (#[trigger] digit_value(s[i])) is Some by {
        lemma_digit_roundtrip(d[i / 2] / 16);
        lemma_digit_roundtrip(d[i / 2] % 16);
    }
}

/// The bytes whose uppercase hexadecimal text is `s`, if there are any;
/// there are exactly when `s` is well-formed hexadecimal text.
pub fn decode_hex_upper(s: &str) -> (res: Option<Vec<u8>>)
    ensures
        res matches Some(d) ==> spec_hex_upper(d@) == s@,
        res is None ==> forall|d: Seq<u8>| spec_hex_upper(d) != s@,
        res is Some <==> is_hex_text(s@),
{
    let mut cs: Vec<char> = Vec::new();
    for c in it: s.chars()
        invariant
            cs@ == it.seq().take(it.index() as int),
    {
        cs.push(c);
    }
    assert(cs@ == s@);
    let n = cs.len();
    if n % 2 != 0 {
        assert forall|d: Seq<u8>| spec_hex_upper(d) != s@ by {
            assert(spec_hex_upper(d).len() == 2 * d.len());
        }
        return None;
    }
    let mut out: Vec<u8> = Vec::new();
    let mut i: usize = 0;
    while i < n / 2
        invariant
            n == cs.len(),
            n % 2 == 0,
            cs@ == s@,
            i <= n / 2,
            out.len() == i,
            spec_hex_upper(out@) == cs@.take(2 * i),
        decreases n / 2 - i,
    {
        let hi = char_value(cs[2 * i]);
        let lo = char_value(cs[2 * i + 1]);
        match (hi, lo) {
            (Some(h), Some(l)) => {
                proof {
                    lemma_value_roundtrip(cs[2 * i as int]);
                    lemma_value_roundtrip(cs[2 * i + 1]);
                    lemma_nibbles(h, l);
                }
                let b: u8 = h * 16 + l;
                let ghost prev = out@;
                out.push(b);
                assert(spec_hex_upper(out@) =~= cs@.take(2 * i + 2)) by {
                    assert forall|j: int| 0 <= j < 2 * i implies spec_hex_upper(out@)[j]
                        == spec_hex_upper(prev)[j] by {
                        assert(out@[j / 2] == prev[j / 2]);
                    }
                }
            },
            _ => {
                assert forall|d: Seq<u8>| spec_hex_upper(d) != s@ by {
                    if spec_hex_upper(d) == s@ {
                        assert(spec_hex_upper(d).len() == 2 * d.len());
                        let x = d[i as int];
                        assert(spec_hex_upper(d)[2 * i as int] == hex_digit(x / 16));
                        assert(spec_hex_upper(d)[2 * i + 1] == hex_digit(x % 16));
                        lemma_digit_roundtrip(x / 16);
                        lemma_digit_roundtrip(x % 16);
                    }
                }
                assert(!is_hex_text(s@)) by {
                    if is_hex_text(s@) {
                        assert(digit_value(s@[2 * i as int]) is Some);
                        assert(digit_value(s@[2 * i + 1]) is Some);
                    }
                }
                return None;
            },
        }
        i = i + 1;
    }
    assert(cs@.take(2 * i) =~= cs@);
    proof {
        lemma_hex_upper_is_hex_text(out@);
    }
    Some(out)
}

} // verus!
