//! Decimal text: the canonical rendering of integers and its exact inverse.
use vstd::prelude::*;

verus! {

/// The character of a decimal digit.
pub open spec fn digit_char(d: int) -> char {
    if d == 0 {
        '0'
    } else if d == 1 {
        '1'
    } else if d == 2 {
        '2'
    } else if d == 3 {
        '3'
    } else if d == 4 {
        '4'
    } else if d == 5 {
        '5'
    } else if d == 6 {
        '6'
    } else if d == 7 {
        '7'
    } else if d == 8 {
        '8'
    } else {
        '9'
    }
}

/// The value of a decimal digit character, or -1 for any other character.
pub open spec fn digit_value(c: char) -> int {
    if c == '0' {
        0
    } else if c == '1' {
        1
    } else if c == '2' {
        2
    } else if c == '3' {
        3
    } else if c == '4' {
        4
    } else if c == '5' {
        5
    } else if c == '6' {
        6
    } else if c == '7' {
        7
    } else if c == '8' {
        8
    } else if c == '9' {
        9
    } else {
        -1
    }
}

pub open spec fn is_digit(c: char) -> bool {
    digit_value(c) >= 0
}

pub open spec fn all_digits(s: Seq<char>) -> bool {
    forall|i: int| 0 <= i < s.len() ==> #[trigger] is_digit(s[i])
}

/// Digits without a superfluous leading zero.
pub open spec fn canonical_digits(s: Seq<char>) -> bool {
    &&& s.len() > 0
    &&& all_digits(s)
    &&& (s.len() > 1 ==> s[0] != '0')
}

/// The decimal rendering of a natural number, most significant digit first.
pub open spec fn nat_digits(n: nat) -> Seq<char>
    decreases n,
{
    if n < 10 {
        seq![digit_char(n as int)]
    } else {
        nat_digits(n / 10).push(digit_char((n % 10) as int))
    }
}

/// The decimal rendering of an integer: a minus sign before the digits of a negative one.
pub open spec fn int_text(n: int) -> Seq<char> {
    if n < 0 {
        seq!['-'] + nat_digits((-n) as nat)
    } else {
        nat_digits(n as nat)
    }
}

/// The number that a run of digits denotes.
pub open spec fn digits_value(s: Seq<char>) -> int
    decreases s.len(),
{
    if s.len() == 0 {
        0
    } else {
        digits_value(s.drop_last()) * 10 + digit_value(s.last())
    }
}

proof fn lemma_digit_round_trip(d: int)
    requires
        0 <= d < 10,
    ensures
        digit_value(digit_char(d)) == d,
{
}

proof fn lemma_char_round_trip(c: char)
    requires
        is_digit(c),
    ensures
        digit_char(digit_value(c)) == c,
{
}

/// The rendering of a number is canonical and denotes that number.
pub proof fn lemma_nat_digits(n: nat)
    ensures
        canonical_digits(nat_digits(n)),
        digits_value(nat_digits(n)) == n,
        nat_digits(n)[0] == '0' ==> n == 0,
    decreases n,
{
    if n < 10 {
        lemma_digit_round_trip(n as int);
        let s = nat_digits(n);
        assert(s.drop_last() =~= Seq::<char>::empty());
        assert(digits_value(s.drop_last()) == 0);
    } else {
        let m = n / 10;
        let d = (n % 10) as int;
        lemma_nat_digits(m);
        lemma_digit_round_trip(d);
        let p = nat_digits(m);
        let s = nat_digits(n);
        vstd::arithmetic::div_mod::lemma_fundamental_div_mod(n as int, 10);
        assert(s == p.push(digit_char(d)));
        assert(s.last() == digit_char(d));
        assert(s.drop_last() =~= p);
        assert(digits_value(s) == digits_value(p) * 10 + d);
        assert forall|i: int| 0 <= i < s.len() implies #[trigger] is_digit(s[i]) by {
            if i < p.len() {
                assert(s[i] == p[i]);
                assert(is_digit(p[i]));
            }
        }
        assert(s[0] == p[0]);
        assert(m >= 1);
        if p.len() == 1 {
            assert(p[0] != '0');
        }
    }
}

/// A canonical run of digits is the rendering of the number it denotes.
pub proof fn lemma_canonical_digits(s: Seq<char>)
    requires
        canonical_digits(s),
    ensures
        digits_value(s) >= 0,
        nat_digits(digits_value(s) as nat) == s,
    decreases s.len(),
{
    if s.len() == 1 {
        assert(is_digit(s[0]));
        assert(s.drop_last() =~= Seq::<char>::empty());
        assert(digits_value(s.drop_last()) == 0);
        assert(digits_value(s) == digit_value(s[0]));
        lemma_char_round_trip(s[0]);
        assert(nat_digits(digits_value(s) as nat) =~= s);
    } else {
        let p = s.drop_last();
        assert(p[0] == s[0]);
        assert forall|i: int| 0 <= i < p.len() implies #[trigger] is_digit(p[i]) by {
            assert(p[i] == s[i]);
            assert(is_digit(s[i]));
        }
        lemma_canonical_digits(p);
        let a = digits_value(p);
        let d = digit_value(s.last());
        assert(is_digit(s[s.len() - 1]));
        if a == 0 {
            assert(nat_digits(0) == seq!['0']);
            assert(p[0] == '0');
        }
        assert(a >= 1);
        let v = a * 10 + d;
        assert(v / 10 == a && v % 10 == d) by (nonlinear_arith)
            requires
                v == a * 10 + d,
                0 <= d < 10,
                a >= 1,
        ;
        lemma_char_round_trip(s.last());
        assert(nat_digits(v as nat) == nat_digits(a as nat).push(digit_char(d)));
        assert(nat_digits(v as nat) =~= s);
    }
}

/// Digits denote at least what any prefix of them denotes.
proof fn lemma_prefix_value(s: Seq<char>, j: int)
    requires
        all_digits(s),
        0 <= j <= s.len(),
    ensures
        0 <= digits_value(s.subrange(0, j)) <= digits_value(s),
    decreases s.len(),
{
    if s.len() == 0 {
        assert(s.subrange(0, j) =~= s);
    } else if j == s.len() {
        assert(s.subrange(0, j) =~= s);
        lemma_prefix_value(s.drop_last(), j - 1);
        assert(is_digit(s[s.len() - 1]));
    } else {
        let p = s.drop_last();
        assert forall|i: int| 0 <= i < p.len() implies #[trigger] is_digit(p[i]) by {
            assert(p[i] == s[i]);
            assert(is_digit(s[i]));
        }
        lemma_prefix_value(p, j);
        assert(p.subrange(0, j) =~= s.subrange(0, j));
        assert(is_digit(s[s.len() - 1]));
    }
}

/// Distinct integers have distinct renderings.
pub proof fn lemma_int_text_injective(a: int, b: int)
    requires
        int_text(a) == int_text(b),
    ensures
        a == b,
{
    if a < 0 {
        lemma_nat_digits((-a) as nat);
    } else {
        lemma_nat_digits(a as nat);
    }
    if b < 0 {
        lemma_nat_digits((-b) as nat);
    } else {
        lemma_nat_digits(b as nat);
    }
    let ta = int_text(a);
    if a < 0 && b < 0 {
        assert(nat_digits((-a) as nat) =~= ta.subrange(1, ta.len() as int));
        assert(nat_digits((-b) as nat) =~= ta.subrange(1, ta.len() as int));
    } else if a < 0 {
        assert(ta[0] == '-');
        assert(is_digit(nat_digits(b as nat)[0]));
    } else if b < 0 {
        assert(int_text(b)[0] == '-');
        assert(is_digit(nat_digits(a as nat)[0]));
    }
}

proof fn lemma_int_text_shape(n: int)
    ensures
        int_text(n).len() > 0,
        n < 0 ==> int_text(n) == seq!['-'] + nat_digits((-n) as nat),
        n >= 0 ==> int_text(n) == nat_digits(n as nat) && int_text(n)[0] != '-',
{
    if n < 0 {
        lemma_nat_digits((-n) as nat);
    } else {
        lemma_nat_digits(n as nat);
        assert(is_digit(nat_digits(n as nat)[0]));
    }
}

proof fn lemma_strip_minus(x: Seq<char>, y: Seq<char>)
    requires
        seq!['-'] + x == seq!['-'] + y,
    ensures
        x == y,
{
    let a = seq!['-'] + x;
    assert(a.len() == x.len() + 1);
    assert(a.len() == y.len() + 1);
    assert(x =~= a.subrange(1, a.len() as int));
    assert(y =~= (seq!['-'] + y).subrange(1, a.len() as int));
}

/// The rendering of an integer is digits, after a minus sign when it is negative.
pub proof fn lemma_int_text_chars(n: int)
    ensures
        int_text(n).len() > 0,
        forall|i: int|
            0 <= i < int_text(n).len() ==> is_digit(#[trigger] int_text(n)[i]) || (i == 0 && n
                < 0 && int_text(n)[i] == '-'),
{
    if n < 0 {
        lemma_nat_digits((-n) as nat);
        let t = int_text(n);
        let d = nat_digits((-n) as nat);
        assert forall|i: int| 0 <= i < t.len() implies is_digit(#[trigger] t[i]) || (i == 0 && n
            < 0 && t[i] == '-') by {
            if i > 0 {
                assert(t[i] == d[i - 1]);
            }
        }
    } else {
        lemma_nat_digits(n as nat);
    }
}

/// The one-character string of a decimal digit.
fn digit_str(d: u128) -> (r: &'static str)
    requires
        d < 10,
    ensures
        r@ == seq![digit_char(d as int)],
{
    let digits = "0123456789";
    proof {
        reveal_strlit("0123456789");
    }
    let r = digits.substring_char(d as usize, d as usize + 1);
    assert(r@ =~= seq![digit_char(d as int)]);
    r
}

/// Renders a natural number in decimal.
pub fn render_nat(n: u128) -> (r: String)
    ensures
        r@ == nat_digits(n as nat),
    decreases n,
{
    if n < 10 {
        String::from_str(digit_str(n))
    } else {
        let mut s = render_nat(n / 10);
        s.append(digit_str(n % 10));
        s
    }
}

/// Renders an integer in decimal, with a leading minus sign when it is negative.
pub fn render_int(n: i64) -> (r: String)
    ensures
        r@ == int_text(n as int),
{
    if n < 0 {
        let mut s = String::from_str("-");
        let m: i128 = -(n as i128);
        let digits = render_nat(m as u128);
        proof {
            reveal_strlit("-");
        }
        s.append(digits.as_str());
        assert(s@ =~= int_text(n as int));
        s
    } else {
        render_nat(n as u128)
    }
}

/// The characters of a string, one by one.
pub fn chars_of(s: &str) -> (r: Vec<char>)
    ensures
        r@ == s@,
{
    let n = s.unicode_len();
    let mut r: Vec<char> = Vec::new();
    let mut i: usize = 0;
    while i < n
        invariant
            n == s@.len(),
            i <= n,
            r@ == s@.subrange(0, i as int),
        decreases n - i,
    {
        let c = s.get_char(i);
        r.push(c);
        i = i + 1;
        assert(r@ =~= s@.subrange(0, i as int));
    }
    assert(r@ =~= s@);
    r
}

fn digit_of(c: char) -> (r: Option<u64>)
    ensures
        r == (if is_digit(c) {
            Some(digit_value(c) as u64)
        } else {
            None::<u64>
        }),
{
    if c == '0' {
        Some(0)
    } else if c == '1' {
        Some(1)
    } else if c == '2' {
        Some(2)
    } else if c == '3' {
        Some(3)
    } else if c == '4' {
        Some(4)
    } else if c == '5' {
        Some(5)
    } else if c == '6' {
        Some(6)
    } else if c == '7' {
        Some(7)
    } else if c == '8' {
        Some(8)
    } else if c == '9' {
        Some(9)
    } else {
        None
    }
}

/// Reads `cs[lo..hi]` as the canonical rendering of a number no greater than `max`.
pub fn parse_nat(cs: &Vec<char>, lo: usize, hi: usize, max: u64) -> (r: Option<u64>)
    requires
        lo <= hi <= cs@.len(),
        max < 0x1000_0000_0000_0000,
    ensures
        match r {
            Some(v) => v <= max && nat_digits(v as nat) == cs@.subrange(lo as int, hi as int),
            None => forall|v: nat|
                v <= max ==> nat_digits(v) != cs@.subrange(lo as int, hi as int),
        },
{
    let ghost seg = cs@.subrange(lo as int, hi as int);
    if hi == lo {
        proof {
            assert forall|v: nat| v <= max implies nat_digits(v) != seg by {
                lemma_nat_digits(v);
            }
        }
        return None;
    }
    if hi - lo > 1 && cs[lo] == '0' {
        proof {
            assert forall|v: nat| v <= max implies nat_digits(v) != seg by {
                lemma_nat_digits(v);
                assert(seg[0] == '0');
            }
        }
        return None;
    }
    let mut v: u64 = 0;
    let mut k: usize = lo;
    while k < hi
        invariant
            lo <= k <= hi <= cs@.len(),
            max < 0x1000_0000_0000_0000,
            v <= max,
            seg == cs@.subrange(lo as int, hi as int),
            all_digits(seg.subrange(0, k - lo)),
            v == digits_value(seg.subrange(0, k - lo)),
        decreases hi - k,
    {
        let c = cs[k];
        assert(c == seg[k - lo]);
        match digit_of(c) {
            None => {
                proof {
                    assert forall|w: nat| w <= max implies nat_digits(w) != seg by {
                        lemma_nat_digits(w);
                        if nat_digits(w) == seg {
                            assert(is_digit(seg[k - lo]));
                        }
                    }
                }
                return None;
            },
            Some(d) => {
                let ghost pre = seg.subrange(0, k - lo);
                let ghost next = seg.subrange(0, k + 1 - lo);
                assert(next.drop_last() =~= pre);
                assert(next.last() == c);
                assert(all_digits(next)) by {
                    assert forall|i: int| 0 <= i < next.len() implies #[trigger] is_digit(
                        next[i],
                    ) by {
                        if i < pre.len() {
                            assert(next[i] == pre[i]);
                        }
                    }
                }
                let nv = v * 10 + d;
                if nv > max {
                    proof {
                        assert forall|w: nat| w <= max implies nat_digits(w) != seg by {
                            lemma_nat_digits(w);
                            if nat_digits(w) == seg {
                                lemma_prefix_value(seg, k + 1 - lo);
                                assert(seg.subrange(0, k + 1 - lo) == next);
                            }
                        }
                    }
                    return None;
                }
                v = nv;
                k = k + 1;
            },
        }
    }
    assert(seg.subrange(0, hi - lo) =~= seg);
    proof {
        lemma_canonical_digits(seg);
    }
    Some(v)
}

/// Reads `cs[lo..hi]` as the canonical rendering of an `i32`.
pub fn parse_i32(cs: &Vec<char>, lo: usize, hi: usize) -> (r: Option<i32>)
    requires
        lo <= hi <= cs@.len(),
    ensures
        match r {
            Some(n) => int_text(n as int) == cs@.subrange(lo as int, hi as int),
            None => forall|n: i32| int_text(n as int) != cs@.subrange(lo as int, hi as int),
        },
{
    let ghost seg = cs@.subrange(lo as int, hi as int);
    if lo < hi && cs[lo] == '-' {
        let ghost rest = cs@.subrange(lo + 1, hi as int);
        assert(seg =~= seq!['-'] + rest);
        let parsed = parse_nat(cs, lo + 1, hi, 0x8000_0000);
        proof {
            assert forall|n: i32| int_text(n as int) == seg implies n < 0 && parsed == Some(
                (-n) as u64,
            ) by {
                lemma_int_text_shape(n as int);
                if n >= 0 {
                    assert(seg[0] == '-');
                }
                lemma_strip_minus(nat_digits((-n) as nat), rest);
                if parsed is Some {
                    lemma_nat_digits(parsed->0 as nat);
                    lemma_nat_digits((-n) as nat);
                }
            }
        }
        match parsed {
            Some(v) => {
                if v == 0 {
                    None
                } else {
                    let n: i64 = -(v as i64);
                    assert(int_text(n as int) =~= seg);
                    Some(n as i32)
                }
            },
            None => None,
        }
    } else {
        let parsed = parse_nat(cs, lo, hi, 0x7fff_ffff);
        proof {
            assert forall|n: i32| int_text(n as int) == seg implies n >= 0 && parsed == Some(
                n as u64,
            ) by {
                lemma_int_text_shape(n as int);
                if n < 0 {
                    assert(seg[0] == '-');
                }
                if parsed is Some {
                    lemma_nat_digits(parsed->0 as nat);
                    lemma_nat_digits(n as nat);
                }
            }
        }
        match parsed {
            Some(v) => Some(v as i32),
            None => None,
        }
    }
}

} // verus!
