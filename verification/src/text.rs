//! Rendering of integers as decimal and hexadecimal text, and parsing of
//! hexadecimal text into a `u64`.
use vstd::prelude::*;

verus! {

/// Whether two strings hold the same characters.
pub fn text_eq(a: &str, b: &str) -> (r: bool)
    ensures
        r == (a@ == b@),
{
    a.to_owned() == b.to_owned()
}

/// The character of a digit below sixteen: `0`-`9`, then `a`-`f`.
pub open spec fn digit_char(d: nat) -> char {
    if d < 10 {
        (48 + d) as char
    } else {
        (87 + d) as char
    }
}

/// The numeral of `n` in base sixteen (`hex`) or ten, without leading zeros.
pub open spec fn numeral(n: nat, hex: bool) -> Seq<char>
    decreases n,
{
    if hex {
        if n < 16 {
            seq![digit_char(n)]
        } else {
            numeral(n / 16, hex).push(digit_char(n % 16))
        }
    } else {
        if n < 10 {
            seq![digit_char(n)]
        } else {
            numeral(n / 10, hex).push(digit_char(n % 10))
        }
    }
}

/// Decimal text of a natural number.
pub open spec fn decimal_text(n: nat) -> Seq<char> {
    numeral(n, false)
}

/// Lower-case hexadecimal text of a natural number, without prefix.
pub open spec fn lower_hex_text(n: nat) -> Seq<char> {
    numeral(n, true)
}

/// Decimal text of an integer, with a leading `-` when it is negative.
pub open spec fn signed_decimal_text(x: int) -> Seq<char> {
    if x < 0 {
        seq!['-'] + decimal_text((-x) as nat)
    } else {
        decimal_text(x as nat)
    }
}

fn digit_str(d: u8) -> (s: &'static str)
    requires
        d < 16,
    ensures
        s@ == seq![digit_char(d as nat)],
{
    match d {
        0 => { proof { reveal_strlit("0"); } "0" },
        1 => { proof { reveal_strlit("1"); } "1" },
        2 => { proof { reveal_strlit("2"); } "2" },
        3 => { proof { reveal_strlit("3"); } "3" },
        4 => { proof { reveal_strlit("4"); } "4" },
        5 => { proof { reveal_strlit("5"); } "5" },
        6 => { proof { reveal_strlit("6"); } "6" },
        7 => { proof { reveal_strlit("7"); } "7" },
        8 => { proof { reveal_strlit("8"); } "8" },
        9 => { proof { reveal_strlit("9"); } "9" },
        10 => { proof { reveal_strlit("a"); } "a" },
        11 => { proof { reveal_strlit("b"); } "b" },
        12 => { proof { reveal_strlit("c"); } "c" },
        13 => { proof { reveal_strlit("d"); } "d" },
        14 => { proof { reveal_strlit("e"); } "e" },
        _ => { proof { reveal_strlit("f"); } "f" },
    }
}

/// Appends the numeral of `n` (base sixteen when `hex`, else ten) to `s`.
pub fn append_numeral(s: &mut String, n: u64, hex: bool)
    ensures
        final(s)@ == old(s)@ + numeral(n as nat, hex),
{
    let base: u64 = if hex { 16 } else { 10 };
    let mut m: u64 = n;
    let mut digits: Vec<u8> = Vec::new();
    while m >= base
        invariant
            base == (if hex { 16u64 } else { 10u64 }),
            numeral(n as nat, hex) == numeral(m as nat, hex) + digits@.map_values(
                |d: u8| digit_char(d as nat),
            ),
            forall|i: int| 0 <= i < digits@.len() ==> #[trigger] digits@[i] < 16,
        decreases m,
    {
        let d: u8 = (m % base) as u8;
        let ghost before = digits@;
        digits.insert(0, d);
        assert(digits@.map_values(|d: u8| digit_char(d as nat)) =~= seq![digit_char(d as nat)]
            + before.map_values(|d: u8| digit_char(d as nat)));
        m = m / base;
    }
    let ghost before = digits@;
    digits.insert(0, m as u8);
    assert(digits@.map_values(|d: u8| digit_char(d as nat)) =~= seq![digit_char(m as nat)]
        + before.map_values(|d: u8| digit_char(d as nat)));
    let ghost start = s@;
    let mut i: usize = 0;
    while i < digits.len()
        invariant
            i <= digits@.len(),
            forall|k: int| 0 <= k < digits@.len() ==> #[trigger] digits@[k] < 16,
            s@ == start + digits@.take(i as int).map_values(|d: u8| digit_char(d as nat)),
        decreases digits@.len() - i,
    {
        let piece = digit_str(digits[i]);
        s.append(piece);
        assert(digits@.take(i + 1).map_values(|d: u8| digit_char(d as nat))
            =~= digits@.take(i as int).map_values(|d: u8| digit_char(d as nat)).push(
            digit_char(digits@[i as int] as nat),
        ));
        i = i + 1;
    }
    assert(digits@.take(digits@.len() as int) =~= digits@);
}

/// Appends the decimal text of `n` to `s`.
pub fn append_decimal(s: &mut String, n: u64)
    ensures
        final(s)@ == old(s)@ + decimal_text(n as nat),
{
    append_numeral(s, n, false);
}

/// Appends the decimal text of `x` to `s`, with a leading `-` when negative.
pub fn append_signed_decimal(s: &mut String, x: i64)
    ensures
        final(s)@ == old(s)@ + signed_decimal_text(x as int),
{
    if x < 0 {
        proof {
            reveal_strlit("-");
        }
        s.append("-");
        let magnitude: u64 = if x == i64::MIN {
            9223372036854775808u64
        } else {
            (-x) as u64
        };
        append_numeral(s, magnitude, false);
        assert(s@ =~= old(s)@ + signed_decimal_text(x as int));
    } else {
        append_numeral(s, x as u64, false);
    }
}

/// Appends the lower-case hexadecimal text of `n` to `s`.
pub fn append_lower_hex(s: &mut String, n: u64)
    ensures
        final(s)@ == old(s)@ + lower_hex_text(n as nat),
{
    append_numeral(s, n, true);
}

/// The value of a hexadecimal digit (either case), if `c` is one.
pub open spec fn hex_digit_value(c: char) -> Option<nat> {
    let v = c as nat;
    if 48 <= v <= 57 {
        Some((v - 48) as nat)
    } else if 97 <= v <= 102 {
        Some((v - 87) as nat)
    } else if 65 <= v <= 70 {
        Some((v - 55) as nat)
    } else {
        None
    }
}

/// Every character of `s` is a hexadecimal digit.
pub open spec fn all_hex_digits(s: Seq<char>) -> bool {
    forall|i: int| 0 <= i < s.len() ==> (#[trigger] hex_digit_value(s[i])) is Some
}

/// The value of a string of hexadecimal digits, most significant first.
pub open spec fn hex_digits_value(s: Seq<char>) -> nat
    decreases s.len(),
{
    if s.len() == 0 {
        0
    } else {
        hex_digits_value(s.drop_last()) * 16 + match hex_digit_value(s.last()) {
            Some(d) => d,
            None => 0,
        }
    }
}

/// What parsing `s` as an unsigned 64-bit integer in radix sixteen yields: an
/// optional leading `+`, then at least one hexadecimal digit and nothing
/// else, with a value that fits in 64 bits.
pub open spec fn parse_hex_u64(s: Seq<char>) -> Option<u64> {
    let digits = if s.len() > 0 && s[0] == '+' {
        s.drop_first()
    } else {
        s
    };
    if digits.len() > 0 && all_hex_digits(digits) && hex_digits_value(digits) <= u64::MAX {
        Some(hex_digits_value(digits) as u64)
    } else {
        None
    }
}

/// `s` with every leading `0x` removed, one after another.
pub open spec fn strip_hex_prefixes(s: Seq<char>) -> Seq<char>
    decreases s.len(),
{
    if s.len() >= 2 && s[0] == '0' && s[1] == 'x' {
        strip_hex_prefixes(s.skip(2))
    } else {
        s
    }
}

proof fn lemma_hex_value_monotone(s: Seq<char>, k: int)
    requires
        0 <= k <= s.len(),
    ensures
        hex_digits_value(s.take(k)) <= hex_digits_value(s),
    decreases s.len() - k,
{
    if k < s.len() {
        lemma_hex_value_monotone(s, k + 1);
        assert(s.take(k + 1).drop_last() =~= s.take(k));
    } else {
        assert(s.take(k) =~= s);
    }
}

fn hex_digit(c: char) -> (r: Option<u64>)
    ensures
        match hex_digit_value(c) {
            Some(d) => r == Some(d as u64),
            None => r is None,
        },
{
    let v: u32 = c as u32;
    if 48 <= v && v <= 57 {
        Some((v - 48) as u64)
    } else if 97 <= v && v <= 102 {
        Some((v - 87) as u64)
    } else if 65 <= v && v <= 70 {
        Some((v - 55) as u64)
    } else {
        None
    }
}

/// Parses the characters of `s` from position `start` on as an unsigned
/// hexadecimal integer (see [`parse_hex_u64`]).
pub fn parse_hex_from(s: &str, start: usize) -> (r: Option<u64>)
    requires
        start <= s@.len(),
    ensures
        r == parse_hex_u64(s@.skip(start as int)),
{
    let len = s.unicode_len();
    let ghost t = s@.skip(start as int);
    let mut i: usize = start;
    if i < len && s.get_char(i) == '+' {
        i = i + 1;
    }
    let ghost digits = s@.skip(i as int);
    assert(digits =~= (if t.len() > 0 && t[0] == '+' { t.drop_first() } else { t }));
    if i == len {
        return None;
    }
    let first = i;
    let mut acc: u64 = 0;
    while i < len
        invariant
            len == s@.len(),
            first <= i <= len,
            first < len,
            digits == s@.skip(first as int),
            t == s@.skip(start as int),
            digits == (if t.len() > 0 && t[0] == '+' { t.drop_first() } else { t }),
            all_hex_digits(digits.take(i - first)),
            acc as nat == hex_digits_value(digits.take(i - first)),
        decreases len - i,
    {
        let c = s.get_char(i);
        let d = hex_digit(c);
        let ghost prefix = digits.take(i - first);
        let ghost next = digits.take(i - first + 1);
        assert(next.drop_last() =~= prefix);
        assert(next.last() == c);
        match d {
            None => {
                assert(!all_hex_digits(digits)) by {
                    assert(hex_digit_value(digits[i - first]) is None);
                }
                return None;
            },
            Some(v) => {
                if acc > (u64::MAX - v) / 16 {
                    proof {
                        lemma_hex_value_monotone(digits, i - first + 1);
                    }
                    return None;
                }
                acc = acc * 16 + v;
                assert(all_hex_digits(next)) by {
                    assert forall|j: int| 0 <= j < next.len() implies (#[trigger] hex_digit_value(
                        next[j],
                    )) is Some by {
                        if j < next.len() - 1 {
                            assert(next[j] == prefix[j]);
                        }
                    }
                }
            },
        }
        i = i + 1;
    }
    assert(digits.take(i - first) =~= digits);
    Some(acc)
}

proof fn lemma_numeral_hex_digits(n: nat)
    ensures
        all_hex_digits(numeral(n, true)),
        hex_digits_value(numeral(n, true)) == n,
        numeral(n, true).len() > 0,
    decreases n,
{
    if n >= 16 {
        lemma_numeral_hex_digits(n / 16);
        let s = numeral(n, true);
        assert(s.drop_last() =~= numeral(n / 16, true));
        assert(s.last() == digit_char(n % 16));
        assert(hex_digit_value(digit_char(n % 16)) == Some(n % 16));
        assert(hex_digits_value(s) == hex_digits_value(numeral(n / 16, true)) * 16 + n % 16);
        assert((n / 16) * 16 + n % 16 == n) by (nonlinear_arith);
        assert(hex_digits_value(s) == n);
        assert forall|i: int| 0 <= i < s.len() implies (#[trigger] hex_digit_value(s[i])) is Some by {
            if i < s.len() - 1 {
                assert(s[i] == numeral(n / 16, true)[i]);
            }
        }
    } else {
        let s = numeral(n, true);
        assert(s.drop_last() =~= Seq::<char>::empty());
        assert(hex_digits_value(Seq::<char>::empty()) == 0);
        assert(hex_digit_value(digit_char(n)) == Some(n));
    }
}

/// Parsing the lower-case hexadecimal text of a `u64`, after the removal of
/// `0x` prefixes, gives the number back.
pub proof fn law_hex_round_trip(x: u64)
    ensures
        strip_hex_prefixes(lower_hex_text(x as nat)) == lower_hex_text(x as nat),
        parse_hex_u64(lower_hex_text(x as nat)) == Some(x),
{
    lemma_numeral_hex_digits(x as nat);
    let s = lower_hex_text(x as nat);
    assert(hex_digit_value(s[0]) is Some);
    if s.len() >= 2 {
        assert(hex_digit_value(s[1]) is Some);
    }
}

} // verus!
