//! Identifier encoding: big-endian trace and span identifiers as the 64-bit
//! decimal strings that the log backend joins on.

use vstd::prelude::*;
use vstd::string::StringExecFns;

verus! {

/// The unsigned value of eight bytes read most significant first.
pub open spec fn be_u64(b: Seq<u8>) -> nat
    recommends
        b.len() == 8,
{
    (b[0] as nat) * 0x0100_0000_0000_0000 + (b[1] as nat) * 0x0001_0000_0000_0000
        + (b[2] as nat) * 0x0000_0100_0000_0000 + (b[3] as nat) * 0x0000_0001_0000_0000
        + (b[4] as nat) * 0x0000_0000_0100_0000 + (b[5] as nat) * 0x0000_0000_0001_0000
        + (b[6] as nat) * 0x0000_0000_0000_0100 + (b[7] as nat)
}

/// The 64-bit value a 16-byte trace identifier is reduced to: its low-order
/// eight bytes, read most significant first.
pub open spec fn trace_id_low64(t: Seq<u8>) -> nat
    recommends
        t.len() == 16,
{
    be_u64(t.subrange(8, 16))
}

/// The character that writes the decimal digit `d`.
pub open spec fn digit_char(d: nat) -> char
    recommends
        d < 10,
{
    if d == 0 {
        '0'
    } else if d == 1 {
        '1'
    } else if d == 2 {
        '2'
    } else if d == 3 {
        '3'
    } else if d == 4 {
        '4'
    } else if d == 5 {
        '5'
    } else if d == 6 {
        '6'
    } else if d == 7 {
        '7'
    } else if d == 8 {
        '8'
    } else {
        '9'
    }
}

/// Whether `c` is one of the ten decimal digits.
pub open spec fn is_digit(c: char) -> bool {
    '0' <= c <= '9'
}

/// The value of the decimal digit `c`.
pub open spec fn digit_value(c: char) -> nat
    recommends
        is_digit(c),
{
    (c as nat - '0' as nat) as nat
}

/// `n` written in base ten: no sign, no leading zero, and `"0"` for zero.
pub open spec fn decimal(n: nat) -> Seq<char>
    decreases n,
{
    if n < 10 {
        seq![digit_char(n)]
    } else {
        decimal(n / 10).push(digit_char(n % 10))
    }
}

/// The number that a string of decimal digits denotes.
pub open spec fn decimal_value(s: Seq<char>) -> nat
    decreases s.len(),
{
    if s.len() == 0 {
        0
    } else {
        decimal_value(s.drop_last()) * 10 + digit_value(s.last())
    }
}

/// Whether `s` is a decimal numeral as `decimal` writes them: at least one
/// character, digits only, and no leading zero unless it is `"0"` itself.
pub open spec fn is_decimal_numeral(s: Seq<char>) -> bool {
    &&& s.len() >= 1
    &&& forall|i: int| 0 <= i < s.len() ==> is_digit(#[trigger] s[i])
    &&& (s.len() > 1 ==> s[0] != '0')
}

/// Reads eight bytes, most significant first, as an unsigned 64-bit integer.
pub fn u64_from_be(b: &[u8; 8]) -> (v: u64)
    ensures
        v as nat == be_u64(b@),
{
    (b[0] as u64) * 0x0100_0000_0000_0000 + (b[1] as u64) * 0x0001_0000_0000_0000
        + (b[2] as u64) * 0x0000_0100_0000_0000 + (b[3] as u64) * 0x0000_0001_0000_0000
        + (b[4] as u64) * 0x0000_0000_0100_0000 + (b[5] as u64) * 0x0000_0000_0001_0000
        + (b[6] as u64) * 0x0000_0000_0000_0100 + (b[7] as u64)
}

/// Reduces a 16-byte big-endian trace identifier to its low-order 64 bits.
pub fn reduce_trace_id(bytes: &[u8; 16]) -> (v: u64)
    ensures
        v as nat == trace_id_low64(bytes@),
{
    let low: [u8; 8] = [
        bytes[8],
        bytes[9],
        bytes[10],
        bytes[11],
        bytes[12],
        bytes[13],
        bytes[14],
        bytes[15],
    ];
    assert(low@ =~= bytes@.subrange(8, 16));
    u64_from_be(&low)
}

/// Reads an 8-byte big-endian span identifier as an unsigned 64-bit integer.
pub fn encode_span_id(bytes: &[u8; 8]) -> (v: u64)
    ensures
        v as nat == be_u64(bytes@),
{
    u64_from_be(bytes)
}

fn digit_str(d: u64) -> (s: &'static str)
    requires
        d < 10,
    ensures
        s@ == seq![digit_char(d as nat)],
{
    proof {
        reveal_strlit("0");
        reveal_strlit("1");
        reveal_strlit("2");
        reveal_strlit("3");
        reveal_strlit("4");
        reveal_strlit("5");
        reveal_strlit("6");
        reveal_strlit("7");
        reveal_strlit("8");
        reveal_strlit("9");
    }
    let s = if d == 0 {
        "0"
    } else if d == 1 {
        "1"
    } else if d == 2 {
        "2"
    } else if d == 3 {
        "3"
    } else if d == 4 {
        "4"
    } else if d == 5 {
        "5"
    } else if d == 6 {
        "6"
    } else if d == 7 {
        "7"
    } else if d == 8 {
        "8"
    } else {
        "9"
    };
    assert(s@ =~= seq![digit_char(d as nat)]);
    s
}

/// Appends `n` in base ten to `out`.
pub fn push_decimal(n: u64, out: &mut String)
    ensures
        final(out)@ == old(out)@ + decimal(n as nat),
    decreases n,
{
    if n >= 10 {
        push_decimal(n / 10, out);
    }
    out.append(digit_str(n % 10));
    assert(final(out)@ =~= old(out)@ + decimal(n as nat));
}

/// `n` as a base-ten string with no leading zeros.
pub fn to_decimal(n: u64) -> (s: String)
    ensures
        s@ == decimal(n as nat),
{
    let mut s = String::new();
    push_decimal(n, &mut s);
    assert(s@ =~= decimal(n as nat));
    s
}

/// The decimal string of a trace identifier's low-order 64 bits.
pub fn trace_id_decimal(bytes: &[u8; 16]) -> (s: String)
    ensures
        s@ == decimal(trace_id_low64(bytes@)),
{
    to_decimal(reduce_trace_id(bytes))
}

/// The decimal string of a span identifier.
pub fn span_id_decimal(bytes: &[u8; 8]) -> (s: String)
    ensures
        s@ == decimal(be_u64(bytes@)),
{
    to_decimal(encode_span_id(bytes))
}

/// Reads a decimal numeral back as an unsigned 64-bit integer: `Some` exactly
/// for a non-empty string of digits whose value fits.
pub fn parse_decimal(s: &str) -> (r: Option<u64>)
    ensures
        r is Some <==> (s@.len() >= 1 && (forall|i: int|
            0 <= i < s@.len() ==> is_digit(#[trigger] s@[i])) && decimal_value(s@) <= u64::MAX),
        r is Some ==> r.unwrap() as nat == decimal_value(s@),
{
    let n = s.unicode_len();
    if n == 0 {
        return None;
    }
    let mut acc: u64 = 0;
    let mut i: usize = 0;
    while i < n
        invariant
            n == s@.len(),
            0 <= i <= n,
            forall|j: int| 0 <= j < i ==> is_digit(#[trigger] s@[j]),
            acc as nat == decimal_value(s@.take(i as int)),
        decreases n - i,
    {
        let c = s.get_char(i);
        proof {
            assert(s@.take(i + 1).drop_last() =~= s@.take(i as int));
            assert(s@.take(i + 1).last() == c);
            lemma_value_monotone(s@, i + 1);
        }
        if c < '0' || c > '9' {
            return None;
        }
        let d: u64 = (c as u64) - ('0' as u64);
        if acc > (u64::MAX - d) / 10 {
            return None;
        }
        acc = acc * 10 + d;
        i += 1;
    }
    assert(s@.take(n as int) =~= s@);
    Some(acc)
}

/// A prefix of a digit string denotes no more than the whole string.
pub proof fn lemma_value_monotone(s: Seq<char>, k: int)
    requires
        0 <= k <= s.len(),
    ensures
        decimal_value(s.take(k)) <= decimal_value(s),
    decreases s.len() - k,
{
    if k < s.len() {
        lemma_value_monotone(s, k + 1);
        assert(s.take(k + 1).drop_last() =~= s.take(k));
    } else {
        assert(s.take(k) =~= s);
    }
}

/// What `decimal` writes is a decimal numeral: at least one character, only
/// digits (so no sign), and no leading zero except in `"0"`.
pub proof fn lemma_decimal_is_numeral(n: nat)
    ensures
        is_decimal_numeral(decimal(n)),
        decimal(n)[0] == '0' <==> n == 0,
    decreases n,
{
    if n >= 10 {
        lemma_decimal_is_numeral(n / 10);
        let p = decimal(n / 10);
        assert(decimal(n)[0] == p[0]);
        assert forall|i: int| 0 <= i < decimal(n).len() implies is_digit(
            #[trigger] decimal(n)[i],
        ) by {
            if i < p.len() {
                assert(decimal(n)[i] == p[i]);
            }
        }
    }
}

/// Each digit's character is a digit and has the digit as its value.
pub proof fn lemma_digit_value(d: nat)
    requires
        d < 10,
    ensures
        is_digit(digit_char(d)),
        digit_value(digit_char(d)) == d,
{
    assert('0' as nat == 48 && '1' as nat == 49 && '2' as nat == 50 && '3' as nat == 51);
    assert('4' as nat == 52 && '5' as nat == 53 && '6' as nat == 54 && '7' as nat == 55);
    assert('8' as nat == 56 && '9' as nat == 57);
}

/// Reading back what `decimal` wrote gives the number that was written.
pub proof fn lemma_decimal_round_trip(n: nat)
    ensures
        decimal_value(decimal(n)) == n,
    decreases n,
{
    lemma_digit_value(n % 10);
    if n >= 10 {
        lemma_decimal_round_trip(n / 10);
        assert(decimal(n).drop_last() =~= decimal(n / 10));
        assert(decimal(n).last() == digit_char(n % 10));
    } else {
        assert(decimal(n).drop_last() =~= Seq::<char>::empty());
        assert(decimal(n).last() == digit_char(n));
        assert(decimal_value(decimal(n).drop_last()) == 0);
    }
}

/// The reduced trace identifier depends on the low-order eight bytes alone:
/// two identifiers that agree on bytes 8 to 15 reduce to the same value,
/// whatever their bytes 0 to 7 are.
pub proof fn lemma_reduce_ignores_high_bytes(a: Seq<u8>, b: Seq<u8>)
    requires
        a.len() == 16,
        b.len() == 16,
        forall|i: int| 8 <= i < 16 ==> a[i] == b[i],
    ensures
        trace_id_low64(a) == trace_id_low64(b),
{
    assert(a.subrange(8, 16) =~= b.subrange(8, 16));
}

/// A span identifier survives the trip through its decimal string: the string
/// is a numeral that fits 64 bits and denotes the identifier's value.
pub proof fn lemma_span_id_round_trip(s: Seq<u8>)
    requires
        s.len() == 8,
    ensures
        is_decimal_numeral(decimal(be_u64(s))),
        decimal_value(decimal(be_u64(s))) == be_u64(s),
        be_u64(s) <= u64::MAX,
{
    lemma_decimal_is_numeral(be_u64(s));
    lemma_decimal_round_trip(be_u64(s));
}

} // verus!
