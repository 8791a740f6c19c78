//! Decimal, hexadecimal and boolean rendering of values, as `format!` writes them.

use vstd::prelude::*;

verus! {

/// The lowercase hexadecimal digit for `d` (`0 <= d < 16`); the first ten are the decimal digits.
pub open spec fn hex_digit(d: int) -> char {
    if d == 0 { '0' }
    else if d == 1 { '1' }
    else if d == 2 { '2' }
    else if d == 3 { '3' }
    else if d == 4 { '4' }
    else if d == 5 { '5' }
    else if d == 6 { '6' }
    else if d == 7 { '7' }
    else if d == 8 { '8' }
    else if d == 9 { '9' }
    else if d == 10 { 'a' }
    else if d == 11 { 'b' }
    else if d == 12 { 'c' }
    else if d == 13 { 'd' }
    else if d == 14 { 'e' }
    else { 'f' }
}

/// The decimal digits of `n`, most significant first, without leading zeros.
pub open spec fn nat_digits(n: nat) -> Seq<char>
    decreases n,
{
    if n < 10 {
        seq![hex_digit(n as int)]
    } else {
        nat_digits(n / 10).push(hex_digit((n % 10) as int))
    }
}

/// `n` written in decimal, with a leading `-` when negative (what `{}` prints for an integer).
pub open spec fn decimal_text(n: int) -> Seq<char> {
    if n < 0 {
        seq!['-'] + nat_digits((-n) as nat)
    } else {
        nat_digits(n as nat)
    }
}

/// `true` or `false`, as `{}` prints a `bool`.
pub open spec fn bool_text(b: bool) -> Seq<char> {
    if b { seq!['t', 'r', 'u', 'e'] } else { seq!['f', 'a', 'l', 's', 'e'] }
}

/// Two lowercase hex digits per byte, high nibble first (what `{:x}` prints for a digest).
pub open spec fn hex_text(bytes: Seq<u8>) -> Seq<char>
    decreases bytes.len(),
{
    if bytes.len() == 0 {
        Seq::empty()
    } else {
        hex_text(bytes.drop_last()) + seq![
            hex_digit((bytes.last() / 16) as int),
            hex_digit((bytes.last() % 16) as int),
        ]
    }
}

/// Whether `c` is one of the sixteen lowercase hexadecimal digits.
pub open spec fn is_lower_hex_char(c: char) -> bool {
    ('0' <= c && c <= '9') || ('a' <= c && c <= 'f')
}

fn digit_str(d: u8) -> (s: &'static str)
    requires
        d < 16,
    ensures
        s@ == seq![hex_digit(d as int)],
{
    match d {
        0 => { proof { reveal_strlit("0"); } "0" },
        1 => { proof { reveal_strlit("1"); } "1" },
        2 => { proof { reveal_strlit("2"); } "2" },
        3 => { proof { reveal_strlit("3"); } "3" },
        4 => { proof { reveal_strlit("4"); } "4" },
        5 => { proof { reveal_strlit("5"); } "5" },
        6 => { proof { reveal_strlit("6"); } "6" },
        7 => { proof { reveal_strlit("7"); } "7" },
        8 => { proof { reveal_strlit("8"); } "8" },
        9 => { proof { reveal_strlit("9"); } "9" },
        10 => { proof { reveal_strlit("a"); } "a" },
        11 => { proof { reveal_strlit("b"); } "b" },
        12 => { proof { reveal_strlit("c"); } "c" },
        13 => { proof { reveal_strlit("d"); } "d" },
        14 => { proof { reveal_strlit("e"); } "e" },
        _ => { proof { reveal_strlit("f"); } "f" },
    }
}

fn append_digits(out: &mut String, n: u64)
    ensures
        final(out)@ == old(out)@ + nat_digits(n as nat),
    decreases n,
{
    if n >= 10 {
        append_digits(out, n / 10);
    }
    let d: u8 = (n % 10) as u8;
    out.append(digit_str(d));
    assert(out@ =~= old(out)@ + nat_digits(n as nat));
}

/// Whether two strings hold the same characters.
pub fn str_eq(a: &str, b: &str) -> (r: bool)
    ensures
        r == (a@ == b@),
{
    a.to_owned() == b.to_owned()
}

/// Appends `n` in decimal to `out`.
pub fn append_decimal(out: &mut String, n: i64)
    ensures
        final(out)@ == old(out)@ + decimal_text(n as int),
{
    if n < 0 {
        proof { reveal_strlit("-"); }
        out.append("-");
        let wide: i128 = n as i128;
        let magnitude: u64 = (0i128 - wide) as u64;
        append_digits(out, magnitude);
        assert(out@ =~= old(out)@ + decimal_text(n as int));
    } else {
        append_digits(out, n as u64);
    }
}

/// Appends `true` or `false` to `out`.
pub fn append_bool(out: &mut String, b: bool)
    ensures
        final(out)@ == old(out)@ + bool_text(b),
{
    if b {
        proof { reveal_strlit("true"); }
        out.append("true");
    } else {
        proof { reveal_strlit("false"); }
        out.append("false");
    }
}

/// Renders `bytes` as lowercase hexadecimal, two digits per byte.
pub fn hex_lower(bytes: &[u8]) -> (s: String)
    ensures
        s@ == hex_text(bytes@),
        s@.len() == 2 * bytes@.len(),
{
    let mut s = String::new();
    let n = bytes.len();
    assert(bytes@.take(0) =~= Seq::<u8>::empty());
    for i in 0..n
        invariant
            n == bytes@.len(),
            s@ == hex_text(bytes@.take(i as int)),
    {
        let b = bytes[i];
        s.append(digit_str(b / 16));
        s.append(digit_str(b % 16));
        assert(bytes@.take(i + 1).drop_last() =~= bytes@.take(i as int));
        assert(s@ =~= hex_text(bytes@.take(i + 1)));
    }
    assert(bytes@.take(n as int) =~= bytes@);
    proof { lemma_hex_text_shape(bytes@); }
    s
}

/// The hex rendering has two characters per byte, and each is a lowercase hex digit.
pub proof fn lemma_hex_text_shape(bytes: Seq<u8>)
    ensures
        hex_text(bytes).len() == 2 * bytes.len(),
        forall|i: int| 0 <= i < hex_text(bytes).len() ==> is_lower_hex_char(#[trigger] hex_text(bytes)[i]),
    decreases bytes.len(),
{
    if bytes.len() > 0 {
        lemma_hex_text_shape(bytes.drop_last());
        let prefix = hex_text(bytes.drop_last());
        let tail = seq![
            hex_digit((bytes.last() / 16) as int),
            hex_digit((bytes.last() % 16) as int),
        ];
        assert forall|i: int| 0 <= i < hex_text(bytes).len() implies is_lower_hex_char(
            #[trigger] hex_text(bytes)[i],
        ) by {
            if i < prefix.len() {
                assert(hex_text(bytes)[i] == prefix[i]);
            } else {
                assert(hex_text(bytes)[i] == tail[i - prefix.len()]);
            }
        }
    }
}

/// Hex rendering spells every byte in place: the byte at `i` gives the characters at
/// `2i` (its high nibble) and `2i + 1` (its low nibble), each the ASCII character
/// `0`-`9` or `a`-`f` for the nibble's value.
pub proof fn lemma_hex_text_positions(bytes: Seq<u8>)
    ensures
        hex_text(bytes).len() == 2 * bytes.len(),
        forall|i: int|
            #![trigger bytes[i]]
            0 <= i < bytes.len() ==> hex_text(bytes)[2 * i] == hex_digit((bytes[i] / 16) as int)
                && hex_text(bytes)[2 * i + 1] == hex_digit((bytes[i] % 16) as int),
        forall|d: int|
            0 <= d < 16 ==> (#[trigger] hex_digit(d)) as int == (if d < 10 { 48 + d } else { 87 + d }),
    decreases bytes.len(),
{
    lemma_hex_text_shape(bytes);
    if bytes.len() > 0 {
        let init = bytes.drop_last();
        lemma_hex_text_positions(init);
        assert forall|i: int| #![trigger bytes[i]] 0 <= i < bytes.len() implies hex_text(bytes)[2 * i]
            == hex_digit((bytes[i] / 16) as int) && hex_text(bytes)[2 * i + 1] == hex_digit(
            (bytes[i] % 16) as int,
        ) by {
            if i < init.len() {
                assert(init[i] == bytes[i]);
            }
        }
    }
}

/// Whether `c` is one of the ten decimal digits.
pub open spec fn is_decimal_digit(c: char) -> bool {
    '0' <= c && c <= '9'
}

/// Distinct digit values below 16 have distinct hex digits.
pub proof fn lemma_hex_digit_injective(a: int, b: int)
    requires
        0 <= a < 16,
        0 <= b < 16,
        hex_digit(a) == hex_digit(b),
    ensures
        a == b,
{
}

/// The hex rendering determines the bytes: different byte strings render differently.
pub proof fn lemma_hex_text_injective(a: Seq<u8>, b: Seq<u8>)
    requires
        hex_text(a) == hex_text(b),
    ensures
        a == b,
    decreases a.len(),
{
    lemma_hex_text_shape(a);
    lemma_hex_text_shape(b);
    if a.len() > 0 {
        let h = hex_text(a);
        let n = h.len() as int;
        lemma_hex_text_shape(a.drop_last());
        lemma_hex_text_shape(b.drop_last());
        assert(h[n - 2] == hex_digit((a.last() / 16) as int));
        assert(h[n - 1] == hex_digit((a.last() % 16) as int));
        assert(hex_text(b)[n - 2] == hex_digit((b.last() / 16) as int));
        assert(hex_text(b)[n - 1] == hex_digit((b.last() % 16) as int));
        lemma_hex_digit_injective((a.last() / 16) as int, (b.last() / 16) as int);
        lemma_hex_digit_injective((a.last() % 16) as int, (b.last() % 16) as int);
        assert(a.last() == b.last());
        assert(hex_text(a.drop_last()) =~= h.subrange(0, n - 2));
        assert(hex_text(b.drop_last()) =~= hex_text(b).subrange(0, n - 2));
        lemma_hex_text_injective(a.drop_last(), b.drop_last());
        assert(a =~= a.drop_last().push(a.last()));
        assert(b =~= b.drop_last().push(b.last()));
    }
}

/// The decimal digits of a number: at least one, all decimal digits, and exactly one
/// for the numbers below ten.
pub proof fn lemma_nat_digits_shape(n: nat)
    ensures
        nat_digits(n).len() >= 1,
        (nat_digits(n).len() == 1) == (n < 10),
        forall|i: int| 0 <= i < nat_digits(n).len() ==> is_decimal_digit(#[trigger] nat_digits(n)[i]),
    decreases n,
{
    if n >= 10 {
        lemma_nat_digits_shape(n / 10);
        let p = nat_digits(n / 10);
        assert forall|i: int| 0 <= i < nat_digits(n).len() implies is_decimal_digit(
            #[trigger] nat_digits(n)[i],
        ) by {
            if i < p.len() {
                assert(nat_digits(n)[i] == p[i]);
            }
        }
    }
}

/// Different numbers have different decimal digits.
pub proof fn lemma_nat_digits_injective(a: nat, b: nat)
    requires
        nat_digits(a) == nat_digits(b),
    ensures
        a == b,
    decreases a,
{
    lemma_nat_digits_shape(a);
    lemma_nat_digits_shape(b);
    if a < 10 {
        assert(nat_digits(a)[0] == hex_digit(a as int));
        assert(nat_digits(b)[0] == hex_digit(b as int));
        lemma_hex_digit_injective(a as int, b as int);
    } else {
        let d = nat_digits(a);
        let n = d.len() as int;
        assert(d[n - 1] == hex_digit((a % 10) as int));
        assert(nat_digits(b)[n - 1] == hex_digit((b % 10) as int));
        lemma_hex_digit_injective((a % 10) as int, (b % 10) as int);
        assert(nat_digits(a / 10) =~= d.subrange(0, n - 1));
        assert(nat_digits(b / 10) =~= nat_digits(b).subrange(0, n - 1));
        lemma_nat_digits_injective(a / 10, b / 10);
    }
}

/// A decimal rendering holds only digits and, first, perhaps a minus sign; so no colon.
pub proof fn lemma_decimal_text_has_no_colon(n: int)
    ensures
        !decimal_text(n).contains(':'),
{
    if n < 0 {
        lemma_nat_digits_shape((-n) as nat);
        let t = decimal_text(n);
        if t.contains(':') {
            let i = choose|i: int| 0 <= i < t.len() && t[i] == ':';
            if i > 0 {
                assert(t[i] == nat_digits((-n) as nat)[i - 1]);
            }
        }
    } else {
        lemma_nat_digits_shape(n as nat);
    }
}

/// Different numbers have different decimal renderings.
pub proof fn lemma_decimal_text_injective(a: int, b: int)
    requires
        decimal_text(a) == decimal_text(b),
    ensures
        a == b,
{
    lemma_nat_digits_shape(if a < 0 { (-a) as nat } else { a as nat });
    lemma_nat_digits_shape(if b < 0 { (-b) as nat } else { b as nat });
    let t = decimal_text(a);
    if a < 0 && b < 0 {
        assert(nat_digits((-a) as nat) =~= t.subrange(1, t.len() as int));
        assert(nat_digits((-b) as nat) =~= decimal_text(b).subrange(1, t.len() as int));
        lemma_nat_digits_injective((-a) as nat, (-b) as nat);
    } else if a < 0 {
        assert(t[0] == '-');
        assert(is_decimal_digit(nat_digits(b as nat)[0]));
    } else if b < 0 {
        assert(decimal_text(b)[0] == '-');
        assert(is_decimal_digit(nat_digits(a as nat)[0]));
    } else {
        lemma_nat_digits_injective(a as nat, b as nat);
    }
}

/// `true` and `false` render differently and hold no colon.
pub proof fn lemma_bool_text_facts(a: bool, b: bool)
    ensures
        bool_text(a) == bool_text(b) ==> a == b,
        !bool_text(a).contains(':'),
{
    if bool_text(a) == bool_text(b) {
        assert(bool_text(a).len() == bool_text(b).len());
    }
}

/// Two texts split at their first separator: where neither head holds the separator,
/// equal texts have equal heads and equal tails.
pub proof fn lemma_split_at_first(h1: Seq<char>, t1: Seq<char>, h2: Seq<char>, t2: Seq<char>, sep: char)
    requires
        !h1.contains(sep),
        !h2.contains(sep),
        h1 + seq![sep] + t1 == h2 + seq![sep] + t2,
    ensures
        h1 == h2,
        t1 == t2,
{
    let s = h1 + seq![sep] + t1;
    if h1.len() < h2.len() {
        assert(s[h1.len() as int] == sep);
        assert(h2[h1.len() as int] == sep);
    }
    if h2.len() < h1.len() {
        assert(s[h2.len() as int] == sep);
        assert(h1[h2.len() as int] == sep);
    }
    assert(h1 =~= s.subrange(0, h1.len() as int));
    assert(h2 =~= s.subrange(0, h2.len() as int));
    assert(t1 =~= s.subrange(h1.len() as int + 1, s.len() as int));
    assert(t2 =~= s.subrange(h2.len() as int + 1, s.len() as int));
}

/// Two texts split at their last separator: where neither tail holds the separator,
/// equal texts have equal heads and equal tails.
pub proof fn lemma_split_at_last(h1: Seq<char>, t1: Seq<char>, h2: Seq<char>, t2: Seq<char>, sep: char)
    requires
        !t1.contains(sep),
        !t2.contains(sep),
        h1 + seq![sep] + t1 == h2 + seq![sep] + t2,
    ensures
        h1 == h2,
        t1 == t2,
{
    let p1 = h1 + seq![sep];
    let p2 = h2 + seq![sep];
    let s = p1 + t1;
    let s2 = p2 + t2;
    assert(s == s2);
    if h1.len() < h2.len() {
        let i = h2.len() as int;
        assert(s2[i] == p2[i]);
        assert(p2[i] == sep);
        assert(s[i] == t1[i - p1.len()]);
        assert(t1[i - p1.len()] == sep);
    }
    if h2.len() < h1.len() {
        let i = h1.len() as int;
        assert(s[i] == p1[i]);
        assert(p1[i] == sep);
        assert(s2[i] == t2[i - p2.len()]);
        assert(t2[i - p2.len()] == sep);
    }
    assert(h1 =~= s.subrange(0, h1.len() as int));
    assert(h2 =~= s.subrange(0, h2.len() as int));
    assert(t1 =~= s.subrange(h1.len() as int + 1, s.len() as int));
    assert(t2 =~= s.subrange(h2.len() as int + 1, s.len() as int));
}

} // verus!
