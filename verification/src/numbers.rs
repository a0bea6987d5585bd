//! Decimal numbers: parsing with the rules of Rust's `FromStr` for integers
//! and `bool` (an optional sign, then ASCII digits only, and a value that fits
//! the type), and the decimal text that `Display` writes for an integer.
use vstd::prelude::*;
use crate::text::push_char;

verus! {

/// An ASCII decimal digit.
pub open spec fn is_digit(c: char) -> bool {
    '0' <= c && c <= '9'
}

/// Every character of `s` is an ASCII decimal digit.
pub open spec fn all_digits(s: Seq<char>) -> bool {
    forall|i: int| 0 <= i < s.len() ==> is_digit(#[trigger] s[i])
}

/// Value of a string of decimal digits, most significant first.
pub open spec fn digits_value(s: Seq<char>) -> nat
    decreases s.len(),
{
    if s.len() == 0 {
        0
    } else {
        digits_value(s.drop_last()) * 10 + ((s.last() as int) - 48) as nat
    }
}

/// The unsigned part: a digit string and its value.
pub open spec fn unsigned_part(d: Seq<char>) -> Option<int> {
    if all_digits(d) {
        Some(digits_value(d) as int)
    } else {
        None
    }
}

/// The number that `s` spells, before any range check; `allow_minus` is false
/// for unsigned targets, where a leading `-` is an invalid digit.
pub open spec fn decimal_number(s: Seq<char>, allow_minus: bool) -> Option<int> {
    if s.len() == 0 {
        None
    } else if (s[0] == '+' || s[0] == '-') && s.len() == 1 {
        None
    } else if s[0] == '+' {
        unsigned_part(s.skip(1))
    } else if s[0] == '-' && allow_minus {
        match unsigned_part(s.skip(1)) {
            Some(v) => Some(-v),
            None => None,
        }
    } else {
        unsigned_part(s)
    }
}

/// What `s.parse::<i32>()` gives, with the error collapsed to `None`.
pub open spec fn spec_parse_i32(s: Seq<char>) -> Option<i32> {
    match decimal_number(s, true) {
        Some(v) => if i32::MIN <= v && v <= i32::MAX { Some(v as i32) } else { None },
        None => None,
    }
}

/// What `s.parse::<u8>()` gives, with the error collapsed to `None`.
pub open spec fn spec_parse_u8(s: Seq<char>) -> Option<u8> {
    match decimal_number(s, false) {
        Some(v) => if 0 <= v && v <= u8::MAX { Some(v as u8) } else { None },
        None => None,
    }
}

/// What `s.parse::<bool>()` gives: only the exact words `true` and `false`.
pub open spec fn spec_parse_bool(s: Seq<char>) -> Option<bool> {
    if s == seq!['t', 'r', 'u', 'e'] {
        Some(true)
    } else if s == seq!['f', 'a', 'l', 's', 'e'] {
        Some(false)
    } else {
        None
    }
}

proof fn lemma_digits_value_prefix(s: Seq<char>, k: int)
    requires
        all_digits(s),
        0 <= k <= s.len(),
    ensures
        digits_value(s.subrange(0, k)) <= digits_value(s),
    decreases s.len(),
{
    if k < s.len() {
        assert(all_digits(s.drop_last()));
        assert(s.drop_last().subrange(0, k) =~= s.subrange(0, k));
        lemma_digits_value_prefix(s.drop_last(), k);
    } else {
        assert(s.subrange(0, k) =~= s);
    }
}

/// Reads the digits of `s` from char index `start` to the end and returns their
/// value when all are digits and the value is at most `limit`.
fn parse_magnitude(s: &str, start: usize, limit: u64) -> (r: Option<u64>)
    requires
        start <= s@.len(),
        limit <= u32::MAX,
    ensures
        r is Some <==> (all_digits(s@.skip(start as int)) && digits_value(s@.skip(start as int))
            <= limit),
        r matches Some(v) ==> v == digits_value(s@.skip(start as int)),
{
    let n = s.unicode_len();
    let ghost tail = s@.skip(start as int);
    let mut acc: u64 = 0;
    let mut i: usize = start;
    while i < n
        invariant
            n == s@.len(),
            start <= i <= n,
            tail == s@.skip(start as int),
            limit <= u32::MAX,
            acc <= limit,
            all_digits(s@.subrange(start as int, i as int)),
            acc == digits_value(s@.subrange(start as int, i as int)),
        decreases n - i,
    {
        let c = s.get_char(i);
        assert(tail[i - start] == c);
        if !('0' <= c && c <= '9') {
            assert(!all_digits(tail));
            return None;
        }
        let d: u64 = ((c as u32) - 48) as u64;
        let ghost before = s@.subrange(start as int, i as int);
        let ghost after = s@.subrange(start as int, i + 1);
        assert(after.drop_last() =~= before);
        acc = acc * 10 + d;
        assert(all_digits(after));
        if acc > limit {
            proof {
                if all_digits(tail) {
                    assert(tail.subrange(0, i + 1 - start) =~= after);
                    lemma_digits_value_prefix(tail, i + 1 - start);
                }
            }
            return None;
        }
        i = i + 1;
    }
    assert(s@.subrange(start as int, n as int) =~= tail);
    Some(acc)
}

/// `s.parse::<i32>()`, with the error collapsed to `None`.
pub fn parse_i32(s: &str) -> (r: Option<i32>)
    ensures
        r == spec_parse_i32(s@),
{
    let n = s.unicode_len();
    if n == 0 {
        return None;
    }
    let c0 = s.get_char(0);
    if c0 == '+' || c0 == '-' {
        if n == 1 {
            return None;
        }
        if c0 == '-' {
            match parse_magnitude(s, 1, 2147483648) {
                Some(v) => Some((0 - (v as i64)) as i32),
                None => {
                    proof {
                        if all_digits(s@.skip(1)) {
                            assert(decimal_number(s@, true) == Some(-(digits_value(s@.skip(1)) as int)));
                        }
                    }
                    None
                },
            }
        } else {
            match parse_magnitude(s, 1, 2147483647) {
                Some(v) => Some(v as i32),
                None => None,
            }
        }
    } else {
        assert(s@.skip(0) =~= s@);
        match parse_magnitude(s, 0, 2147483647) {
            Some(v) => Some(v as i32),
            None => None,
        }
    }
}

/// `s.parse::<u8>()`, with the error collapsed to `None`.
pub fn parse_u8(s: &str) -> (r: Option<u8>)
    ensures
        r == spec_parse_u8(s@),
{
    let n = s.unicode_len();
    if n == 0 {
        return None;
    }
    let c0 = s.get_char(0);
    if c0 == '+' {
        if n == 1 {
            return None;
        }
        match parse_magnitude(s, 1, 255) {
            Some(v) => Some(v as u8),
            None => None,
        }
    } else if c0 == '-' {
        assert(!all_digits(s@));
        None
    } else {
        assert(s@.skip(0) =~= s@);
        match parse_magnitude(s, 0, 255) {
            Some(v) => Some(v as u8),
            None => None,
        }
    }
}

/// `s.parse::<bool>()`, with the error collapsed to `None`.
pub fn parse_bool(s: &str) -> (r: Option<bool>)
    ensures
        r == spec_parse_bool(s@),
{
    let n = s.unicode_len();
    if n == 4 && s.get_char(0) == 't' && s.get_char(1) == 'r' && s.get_char(2) == 'u'
        && s.get_char(3) == 'e' {
        assert(s@ =~= seq!['t', 'r', 'u', 'e']);
        Some(true)
    } else if n == 5 && s.get_char(0) == 'f' && s.get_char(1) == 'a' && s.get_char(2) == 'l'
        && s.get_char(3) == 's' && s.get_char(4) == 'e' {
        assert(s@ =~= seq!['f', 'a', 'l', 's', 'e']);
        Some(false)
    } else {
        proof {
            if s@ == seq!['t', 'r', 'u', 'e'] {
                assert(s@[0] == 't' && s@[1] == 'r' && s@[2] == 'u' && s@[3] == 'e');
            }
            if s@ == seq!['f', 'a', 'l', 's', 'e'] {
                assert(s@[0] == 'f' && s@[1] == 'a' && s@[2] == 'l' && s@[3] == 's' && s@[4] == 'e');
            }
        }
        None
    }
}

/// The decimal digits of `n`, most significant first, without leading zeros
/// (`"0"` for zero).
pub open spec fn nat_digits(n: nat) -> Seq<char>
    decreases n,
{
    if n < 10 {
        seq![(48 + n) as char]
    } else {
        nat_digits(n / 10).push((48 + n % 10) as char)
    }
}

/// The text that `Display` writes for the integer `n`: a `-` before the
/// digits of a negative number.
pub open spec fn int_text(n: int) -> Seq<char> {
    if n < 0 {
        seq!['-'] + nat_digits((-n) as nat)
    } else {
        nat_digits(n as nat)
    }
}

/// The decimal text of an unsigned number.
pub fn u64_text(n: u64) -> (r: String)
    ensures
        r@ == nat_digits(n as nat),
    decreases n,
{
    let digit: u8 = (n % 10) as u8;
    let c = (digit + 48) as char;
    if n < 10 {
        let mut s = String::new();
        push_char(&mut s, c);
        assert(s@ =~= seq![c]);
        s
    } else {
        let mut s = u64_text(n / 10);
        push_char(&mut s, c);
        s
    }
}

/// The decimal text of a signed number, as `to_string` gives it.
pub fn i64_text(n: i64) -> (r: String)
    ensures
        r@ == int_text(n as int),
{
    if n < 0 {
        let magnitude: u64 = (0 - (n as i128)) as u64;
        let digits = u64_text(magnitude);
        let mut s = String::from_str("-");
        proof {
            reveal_strlit("-");
        }
        s.append(digits.as_str());
        s
    } else {
        u64_text(n as u64)
    }
}

proof fn lemma_nat_digits(n: nat)
    ensures
        all_digits(nat_digits(n)),
        digits_value(nat_digits(n)) == n,
        nat_digits(n).len() > 0,
        nat_digits(n)[0] != '+' && nat_digits(n)[0] != '-',
    decreases n,
{
    if n >= 10 {
        lemma_nat_digits(n / 10);
        let s = nat_digits(n / 10);
        let c = (48 + n % 10) as char;
        assert(s.push(c).drop_last() =~= s);
        assert(c as int == 48 + n % 10);
        assert(s.push(c).last() == c);
        assert(digits_value(s.push(c)) == digits_value(s) * 10 + ((c as int) - 48) as nat);
        assert((n / 10) * 10 + n % 10 == n) by (nonlinear_arith);
        assert(s.push(c)[0] == s[0]);
    } else {
        let c = (48 + n) as char;
        assert(c as int == 48 + n);
        assert(seq![c].drop_last() =~= Seq::<char>::empty());
        assert(digits_value(seq![c]) == digits_value(Seq::<char>::empty()) * 10 + ((c as int) - 48) as nat);
    }
}

/// Reading back the decimal text of a 32-bit number gives the number.
pub proof fn law_decimal_round_trip(n: i32)
    ensures
        spec_parse_i32(int_text(n as int)) == Some(n),
{
    if n < 0 {
        let m = (-(n as int)) as nat;
        lemma_nat_digits(m);
        let t = seq!['-'] + nat_digits(m);
        assert(t.skip(1) =~= nat_digits(m));
    } else {
        lemma_nat_digits(n as nat);
    }
}

} // verus!
