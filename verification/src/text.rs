//! Number formatting for the texts the façade exports (node names, sysfs
//! files, hotplug properties).

use vstd::prelude::*;
use vstd::string::{StrSliceExecFns, StringExecFns, StringSliceAdditionalSpecFns};

verus! {

/// The lower-case character of one hexadecimal digit.
pub open spec fn digit_char(d: int) -> char {
    if d == 0 {
        '0'
    } else if d == 1 {
        '1'
    } else if d == 2 {
        '2'
    } else if d == 3 {
        '3'
    } else if d == 4 {
        '4'
    } else if d == 5 {
        '5'
    } else if d == 6 {
        '6'
    } else if d == 7 {
        '7'
    } else if d == 8 {
        '8'
    } else if d == 9 {
        '9'
    } else if d == 10 {
        'a'
    } else if d == 11 {
        'b'
    } else if d == 12 {
        'c'
    } else if d == 13 {
        'd'
    } else if d == 14 {
        'e'
    } else {
        'f'
    }
}

/// The upper-case character of one hexadecimal digit.
pub open spec fn digit_char_upper(d: int) -> char {
    if d == 10 {
        'A'
    } else if d == 11 {
        'B'
    } else if d == 12 {
        'C'
    } else if d == 13 {
        'D'
    } else if d == 14 {
        'E'
    } else if d == 15 {
        'F'
    } else {
        digit_char(d)
    }
}

/// Decimal notation of `n`, without leading zeros.
pub open spec fn decimal(n: nat) -> Seq<char>
    decreases n,
{
    if n < 10 {
        seq![digit_char(n as int)]
    } else {
        decimal(n / 10).push(digit_char((n % 10) as int))
    }
}

/// Lower-case hexadecimal notation of `n`, without leading zeros.
pub open spec fn hex(n: nat) -> Seq<char>
    decreases n,
{
    if n < 16 {
        seq![digit_char(n as int)]
    } else {
        hex(n / 16).push(digit_char((n % 16) as int))
    }
}

/// Four lower-case hexadecimal digits, zero padded.
pub open spec fn hex4(n: u16) -> Seq<char> {
    seq![
        digit_char((n / 4096) as int),
        digit_char(((n / 256) % 16) as int),
        digit_char(((n / 16) % 16) as int),
        digit_char((n % 16) as int),
    ]
}

/// Four upper-case hexadecimal digits, zero padded.
pub open spec fn hex4_upper(n: u16) -> Seq<char> {
    seq![
        digit_char_upper((n / 4096) as int),
        digit_char_upper(((n / 256) % 16) as int),
        digit_char_upper(((n / 16) % 16) as int),
        digit_char_upper((n % 16) as int),
    ]
}

/// Decimal notation of `n`, zero padded to at least three digits.
pub open spec fn decimal3(n: nat) -> Seq<char> {
    if n < 10 {
        seq!['0', '0'] + decimal(n)
    } else if n < 100 {
        seq!['0'] + decimal(n)
    } else {
        decimal(n)
    }
}

/// Appends one lower-case hexadecimal digit.
pub fn push_digit(s: &mut String, d: u8)
    requires
        d < 16,
    ensures
        final(s)@ == old(s)@.push(digit_char(d as int)),
{
    proof {
        reveal_strlit("0");
        reveal_strlit("1");
        reveal_strlit("2");
        reveal_strlit("3");
        reveal_strlit("4");
        reveal_strlit("5");
        reveal_strlit("6");
        reveal_strlit("7");
        reveal_strlit("8");
        reveal_strlit("9");
        reveal_strlit("a");
        reveal_strlit("b");
        reveal_strlit("c");
        reveal_strlit("d");
        reveal_strlit("e");
        reveal_strlit("f");
    }
    let piece: &str = if d == 0 {
        "0"
    } else if d == 1 {
        "1"
    } else if d == 2 {
        "2"
    } else if d == 3 {
        "3"
    } else if d == 4 {
        "4"
    } else if d == 5 {
        "5"
    } else if d == 6 {
        "6"
    } else if d == 7 {
        "7"
    } else if d == 8 {
        "8"
    } else if d == 9 {
        "9"
    } else if d == 10 {
        "a"
    } else if d == 11 {
        "b"
    } else if d == 12 {
        "c"
    } else if d == 13 {
        "d"
    } else if d == 14 {
        "e"
    } else {
        "f"
    };
    assert(piece@ =~= seq![digit_char(d as int)]);
    s.append(piece);
    assert(s@ =~= old(s)@.push(digit_char(d as int)));
}

/// Appends one upper-case hexadecimal digit.
pub fn push_digit_upper(s: &mut String, d: u8)
    requires
        d < 16,
    ensures
        final(s)@ == old(s)@.push(digit_char_upper(d as int)),
{
    if d < 10 {
        push_digit(s, d);
    } else {
        proof {
            reveal_strlit("A");
            reveal_strlit("B");
            reveal_strlit("C");
            reveal_strlit("D");
            reveal_strlit("E");
            reveal_strlit("F");
        }
        let piece: &str = if d == 10 {
            "A"
        } else if d == 11 {
            "B"
        } else if d == 12 {
            "C"
        } else if d == 13 {
            "D"
        } else if d == 14 {
            "E"
        } else {
            "F"
        };
        assert(piece@ =~= seq![digit_char_upper(d as int)]);
        s.append(piece);
        assert(s@ =~= old(s)@.push(digit_char_upper(d as int)));
    }
}

/// Appends `n` in decimal.
pub fn push_decimal(s: &mut String, n: u64)
    ensures
        final(s)@ == old(s)@ + decimal(n as nat),
    decreases n,
{
    if n >= 10 {
        push_decimal(s, n / 10);
    }
    push_digit(s, (n % 10) as u8);
    assert(s@ =~= old(s)@ + decimal(n as nat));
}

/// Appends `n` in lower-case hexadecimal.
pub fn push_hex(s: &mut String, n: u64)
    ensures
        final(s)@ == old(s)@ + hex(n as nat),
    decreases n,
{
    if n >= 16 {
        push_hex(s, n / 16);
    }
    push_digit(s, (n % 16) as u8);
    assert(s@ =~= old(s)@ + hex(n as nat));
}

/// Appends `n` as four lower-case hexadecimal digits.
pub fn push_hex4(s: &mut String, n: u16)
    ensures
        final(s)@ == old(s)@ + hex4(n),
{
    push_digit(s, (n / 4096) as u8);
    push_digit(s, ((n / 256) % 16) as u8);
    push_digit(s, ((n / 16) % 16) as u8);
    push_digit(s, (n % 16) as u8);
    assert(s@ =~= old(s)@ + hex4(n));
}

/// Appends `n` as four upper-case hexadecimal digits.
pub fn push_hex4_upper(s: &mut String, n: u16)
    ensures
        final(s)@ == old(s)@ + hex4_upper(n),
{
    push_digit_upper(s, (n / 4096) as u8);
    push_digit_upper(s, ((n / 256) % 16) as u8);
    push_digit_upper(s, ((n / 16) % 16) as u8);
    push_digit_upper(s, (n % 16) as u8);
    assert(s@ =~= old(s)@ + hex4_upper(n));
}

/// Appends `n` in decimal, zero padded to at least three digits.
pub fn push_decimal3(s: &mut String, n: u128)
    ensures
        final(s)@ == old(s)@ + decimal3(n as nat),
{
    if n < 10 {
        push_digit(s, 0);
        push_digit(s, 0);
    } else if n < 100 {
        push_digit(s, 0);
    }
    push_decimal_wide(s, n);
    assert(s@ =~= old(s)@ + decimal3(n as nat));
}

/// `n` in decimal.
pub fn decimal_string(n: u64) -> (s: String)
    ensures
        s@ == decimal(n as nat),
{
    let mut s = String::new();
    push_decimal(&mut s, n);
    assert(s@ =~= decimal(n as nat));
    s
}

/// `n` in lower-case hexadecimal.
pub fn hex_string(n: u64) -> (s: String)
    ensures
        s@ == hex(n as nat),
{
    let mut s = String::new();
    push_hex(&mut s, n);
    assert(s@ =~= hex(n as nat));
    s
}


/// `s` with every occurrence of `from` replaced by `with`.
pub open spec fn replace_char(s: Seq<char>, from: char, with: Seq<char>) -> Seq<char>
    decreases s.len(),
{
    if s.len() == 0 {
        Seq::empty()
    } else {
        replace_char(s.drop_last(), from, with) + (if s.last() == from {
            with
        } else {
            seq![s.last()]
        })
    }
}

/// `s` with every space replaced by `with`.
pub fn replace_spaces(s: &str, with: &str) -> (out: String)
    ensures
        out@ == replace_char(s@, ' ', with@),
{
    let n: usize = s.unicode_len();
    let mut out = String::new();
    let mut i: usize = 0;
    while i < n
        invariant
            i <= n,
            n == s@.len(),
            out@ == replace_char(s@.subrange(0, i as int), ' ', with@),
        decreases n - i,
    {
        proof {
            let next = s@.subrange(0, i + 1);
            assert(next.drop_last() =~= s@.subrange(0, i as int));
            assert(next.last() == s@[i as int]);
        }
        let c = s.get_char(i);
        if c == ' ' {
            out.append(with);
        } else {
            let piece = s.substring_char(i, i + 1);
            assert(piece@ =~= seq![s@[i as int]]);
            out.append(piece);
        }
        i = i + 1;
    }
    assert(s@.subrange(0, n as int) =~= s@);
    out
}

/// Appends the bytes of a text.
pub fn push_str_bytes(buf: &mut Vec<u8>, s: &str)
    ensures
        final(buf)@ == old(buf)@ + s.spec_bytes(),
{
    let bytes = s.as_bytes();
    let n: usize = bytes.len();
    let mut i: usize = 0;
    while i < n
        invariant
            i <= n,
            n == bytes@.len(),
            bytes@ == s.spec_bytes(),
            buf@ == old(buf)@ + bytes@.subrange(0, i as int),
        decreases n - i,
    {
        buf.push(bytes[i]);
        i = i + 1;
        assert(buf@ =~= old(buf)@ + bytes@.subrange(0, i as int));
    }
    assert(bytes@.subrange(0, n as int) =~= bytes@);
}

/// Appends `n` in decimal, for numbers beyond 64 bits.
pub fn push_decimal_wide(s: &mut String, n: u128)
    ensures
        final(s)@ == old(s)@ + decimal(n as nat),
    decreases n,
{
    if n >= 10 {
        push_decimal_wide(s, n / 10);
    }
    push_digit(s, (n % 10) as u8);
    assert(s@ =~= old(s)@ + decimal(n as nat));
}

/// Whether `s` starts with `p`.
pub open spec fn has_prefix(s: Seq<char>, p: Seq<char>) -> bool {
    p.len() <= s.len() && s.subrange(0, p.len() as int) == p
}

/// Whether `c` is one of the ten decimal digits.
pub open spec fn is_digit(c: char) -> bool {
    48 <= c as u32 <= 57
}

/// Whether `s` is made of decimal digits, at least one.
pub open spec fn is_number(s: Seq<char>) -> bool {
    s.len() > 0 && forall|i: int| 0 <= i < s.len() ==> is_digit(#[trigger] s[i])
}

/// The number that a text of decimal digits stands for.
pub open spec fn digits_value(s: Seq<char>) -> nat
    decreases s.len(),
{
    if s.len() == 0 {
        0
    } else {
        (10 * digits_value(s.drop_last()) + (s.last() as u32 - 48)) as nat
    }
}

/// Whether two texts are the same.
pub fn str_equals(a: &str, b: &str) -> (r: bool)
    ensures
        r == (a@ == b@),
{
    let n: usize = a.unicode_len();
    if b.unicode_len() != n {
        return false;
    }
    let mut i: usize = 0;
    while i < n
        invariant
            i <= n,
            n == a@.len(),
            n == b@.len(),
            forall|k: int| 0 <= k < i ==> a@[k] == b@[k],
        decreases n - i,
    {
        if a.get_char(i) != b.get_char(i) {
            return false;
        }
        i = i + 1;
    }
    assert(a@ =~= b@);
    true
}

/// Whether `s` starts with `prefix`.
pub fn starts_with(s: &str, prefix: &str) -> (r: bool)
    ensures
        r == has_prefix(s@, prefix@),
{
    let n: usize = prefix.unicode_len();
    if s.unicode_len() < n {
        return false;
    }
    let mut i: usize = 0;
    while i < n
        invariant
            i <= n,
            n == prefix@.len(),
            n <= s@.len(),
            forall|k: int| 0 <= k < i ==> s@[k] == prefix@[k],
        decreases n - i,
    {
        if s.get_char(i) != prefix.get_char(i) {
            assert(s@.subrange(0, n as int)[i as int] != prefix@[i as int]);
            return false;
        }
        i = i + 1;
    }
    assert(s@.subrange(0, n as int) =~= prefix@);
    true
}

/// What follows the first `from` characters of `s`.
pub fn suffix_from(s: &str, from: usize) -> (r: &str)
    requires
        from <= s@.len(),
    ensures
        r@ == s@.subrange(from as int, s@.len() as int),
{
    let n: usize = s.unicode_len();
    s.substring_char(from, n)
}

/// Whether `p` stands in `s` from position `i` on.
pub open spec fn occurs_at(s: Seq<char>, p: Seq<char>, i: int) -> bool {
    0 <= i && i + p.len() <= s.len() && s.subrange(i, i + p.len()) == p
}

/// Whether `p` stands somewhere in `s`.
pub open spec fn has_infix(s: Seq<char>, p: Seq<char>) -> bool {
    exists|i: int| occurs_at(s, p, i)
}

/// Whether `part` stands somewhere in `s`.
pub fn contains_text(s: &str, part: &str) -> (r: bool)
    ensures
        r == has_infix(s@, part@),
{
    let n: usize = s.unicode_len();
    let m: usize = part.unicode_len();
    if n < m {
        return false;
    }
    let last: usize = n - m;
    let mut i: usize = 0;
    while i < last
        invariant
            n == s@.len(),
            m == part@.len(),
            last == n - m,
            i <= last,
            forall|k: int| 0 <= k < i ==> !occurs_at(s@, part@, k),
        decreases last - i,
    {
        let rest = suffix_from(s, i);
        assert(rest@.subrange(0, m as int) =~= s@.subrange(i as int, i + m));
        if starts_with(rest, part) {
            assert(occurs_at(s@, part@, i as int));
            return true;
        }
        i = i + 1;
    }
    let rest = suffix_from(s, last);
    assert(rest@.subrange(0, m as int) =~= s@.subrange(last as int, last + m));
    let found = starts_with(rest, part);
    assert(found == occurs_at(s@, part@, last as int));
    found
}

/// Whether `s` is made of decimal digits, at least one.
pub fn is_all_digits(s: &str) -> (r: bool)
    ensures
        r == is_number(s@),
{
    let n: usize = s.unicode_len();
    if n == 0 {
        return false;
    }
    let mut i: usize = 0;
    while i < n
        invariant
            i <= n,
            n == s@.len(),
            forall|k: int| 0 <= k < i ==> is_digit(#[trigger] s@[k]),
        decreases n - i,
    {
        let c: u32 = s.get_char(i) as u32;
        if c < 48 || c > 57 {
            assert(!is_digit(s@[i as int]));
            return false;
        }
        i = i + 1;
    }
    true
}

/// The number that `s` stands for: `None` where `s` is not made of decimal
/// digits or the number does not fit in 64 bits.
pub fn parse_decimal(s: &str) -> (r: Option<u64>)
    ensures
        match r {
            Some(v) => is_number(s@) && v == digits_value(s@),
            None => !is_number(s@) || digits_value(s@) > u64::MAX,
        },
{
    if !is_all_digits(s) {
        return None;
    }
    let n: usize = s.unicode_len();
    let mut v: u64 = 0;
    let mut i: usize = 0;
    while i < n
        invariant
            i <= n,
            n == s@.len(),
            is_number(s@),
            v == digits_value(s@.subrange(0, i as int)),
        decreases n - i,
    {
        proof {
            let next = s@.subrange(0, i + 1);
            assert(next.drop_last() =~= s@.subrange(0, i as int));
            assert(next.last() == s@[i as int]);
            assert(is_digit(s@[i as int]));
        }
        let d: u64 = (s.get_char(i) as u32 - 48) as u64;
        if v > (u64::MAX - d) / 10 {
            proof {
                lemma_digits_value_grows(s@, i + 1);
            }
            return None;
        }
        v = 10 * v + d;
        i = i + 1;
    }
    assert(s@.subrange(0, n as int) =~= s@);
    Some(v)
}

/// The number of a longer run of digits is no smaller than that of its
/// beginning.
pub proof fn lemma_digits_value_grows(s: Seq<char>, k: int)
    requires
        0 <= k <= s.len(),
        forall|i: int| 0 <= i < s.len() ==> is_digit(#[trigger] s[i]),
    ensures
        digits_value(s.subrange(0, k)) <= digits_value(s),
    decreases s.len() - k,
{
    if k < s.len() {
        lemma_digits_value_grows(s, k + 1);
        let next = s.subrange(0, k + 1);
        assert(next.drop_last() =~= s.subrange(0, k));
        assert(is_digit(s[k]));
        assert(next.last() == s[k]);
    } else {
        assert(s.subrange(0, k) =~= s);
    }
}

/// Decimal notation is made of digits and stands for the number it was
/// made from; so different numbers have different notations.
pub proof fn lemma_decimal_parses_back(n: nat)
    ensures
        is_number(decimal(n)),
        digits_value(decimal(n)) == n,
    decreases n,
{
    if n < 10 {
        let s = decimal(n);
        assert(s.len() == 1);
        assert(s[0] == digit_char(n as int));
        assert(s.drop_last().len() == 0);
        assert(digits_value(s.drop_last()) == 0);
        assert(s.last() as u32 - 48 == n);
    } else {
        lemma_decimal_parses_back(n / 10);
        let head = decimal(n / 10);
        let s = decimal(n);
        assert(s == head.push(digit_char((n % 10) as int)));
        assert(s.drop_last() =~= head);
        assert(s.last() == digit_char((n % 10) as int));
        assert(s.last() as u32 - 48 == n % 10);
        assert forall|i: int| 0 <= i < s.len() implies is_digit(#[trigger] s[i]) by {
            if i < head.len() {
                assert(s[i] == head[i]);
            }
        }
    }
}

/// Different numbers have different decimal notations, whatever stands in
/// front of them.
pub proof fn lemma_decimal_is_injective(prefix: Seq<char>, a: nat, b: nat)
    requires
        prefix + decimal(a) == prefix + decimal(b),
    ensures
        a == b,
{
    let x = prefix + decimal(a);
    let y = prefix + decimal(b);
    assert(x.subrange(prefix.len() as int, x.len() as int) =~= decimal(a));
    assert(y.subrange(prefix.len() as int, y.len() as int) =~= decimal(b));
    lemma_decimal_parses_back(a);
    lemma_decimal_parses_back(b);
}

} // verus!
