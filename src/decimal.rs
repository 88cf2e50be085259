//! Decimal settings. A voltage or a current travels as decimal text; the
//! library reads it as a whole number of millionths of a unit (micro-units),
//! with at most twelve integer digits and six fractional digits.
use vstd::prelude::*;
use vstd::string::*;

verus! {

/// Micro-units in one unit.
pub const SCALE: u64 = 1000000;

/// Most integer digits a setting may have.
pub const MAX_INT_DIGITS: usize = 12;

/// Most fractional digits a setting may have.
pub const MAX_FRAC_DIGITS: usize = 6;

/// Magnitudes below this bound are the settings the library can read and
/// write.
pub const MAGNITUDE_BOUND: i64 = 1000000000000000000;

pub open spec fn is_digit(c: char) -> bool {
    '0' <= c && c <= '9'
}

pub open spec fn digit_value(c: char) -> int {
    c as int - '0' as int
}

pub open spec fn all_digits(s: Seq<char>) -> bool {
    forall|i: int| 0 <= i < s.len() ==> is_digit(#[trigger] s[i])
}

/// The number that a string of decimal digits writes.
pub open spec fn digits_value(s: Seq<char>) -> int
    decreases s.len(),
{
    if s.len() == 0 {
        0
    } else {
        digits_value(s.drop_last()) * 10 + digit_value(s.last())
    }
}

pub open spec fn pow10(n: nat) -> int
    decreases n,
{
    if n == 0 {
        1
    } else {
        10 * pow10((n - 1) as nat)
    }
}

/// Position of the first `.` in `s`, or its length if there is none.
pub open spec fn dot_index(s: Seq<char>) -> int
    decreases s.len(),
{
    if s.len() == 0 {
        0
    } else if s[0] == '.' {
        0
    } else {
        1 + dot_index(s.drop_first())
    }
}

/// What stands before the first `.`.
pub open spec fn int_part(b: Seq<char>) -> Seq<char> {
    b.subrange(0, dot_index(b))
}

/// What stands after the first `.`; empty if there is none.
pub open spec fn frac_part(b: Seq<char>) -> Seq<char> {
    if dot_index(b) < b.len() {
        b.subrange(dot_index(b) + 1, b.len() as int)
    } else {
        Seq::empty()
    }
}

/// An unsigned decimal `ddd`, `ddd.fff`, `ddd.` or `.fff` in micro-units.
pub open spec fn unsigned_decimal(b: Seq<char>) -> Option<int> {
    let ip = int_part(b);
    let fp = frac_part(b);
    if all_digits(ip) && all_digits(fp) && ip.len() + fp.len() >= 1 && ip.len()
        <= MAX_INT_DIGITS && fp.len() <= MAX_FRAC_DIGITS {
        Some(digits_value(ip) * SCALE + digits_value(fp) * pow10((6 - fp.len()) as nat))
    } else {
        None
    }
}

/// A decimal with an optional leading `-` or `+`, in micro-units.
pub open spec fn parse_decimal(s: Seq<char>) -> Option<int> {
    if s.len() > 0 && s[0] == '-' {
        match unsigned_decimal(s.drop_first()) {
            Some(v) => Some(-v),
            None => None,
        }
    } else if s.len() > 0 && s[0] == '+' {
        unsigned_decimal(s.drop_first())
    } else {
        unsigned_decimal(s)
    }
}

pub open spec fn digit_char(d: int) -> char {
    if d == 0 {
        '0'
    } else if d == 1 {
        '1'
    } else if d == 2 {
        '2'
    } else if d == 3 {
        '3'
    } else if d == 4 {
        '4'
    } else if d == 5 {
        '5'
    } else if d == 6 {
        '6'
    } else if d == 7 {
        '7'
    } else if d == 8 {
        '8'
    } else {
        '9'
    }
}

/// The shortest decimal digits of `n`.
pub open spec fn decimal_digits(n: nat) -> Seq<char>
    decreases n,
{
    if n < 10 {
        seq![digit_char(n as int)]
    } else {
        decimal_digits(n / 10).push(digit_char((n % 10) as int))
    }
}

/// The last `w` decimal digits of `n`, with leading zeros.
pub open spec fn fixed_digits(n: nat, w: nat) -> Seq<char>
    decreases w,
{
    if w == 0 {
        Seq::empty()
    } else {
        fixed_digits(n / 10, (w - 1) as nat).push(digit_char((n % 10) as int))
    }
}

pub open spec fn abs(v: int) -> nat {
    if v < 0 {
        (-v) as nat
    } else {
        v as nat
    }
}

/// The text of a value in micro-units: its integer digits, then six
/// fractional digits when it is not whole.
pub open spec fn format_decimal(v: int) -> Seq<char> {
    let a = abs(v);
    let sign = if v < 0 {
        "-"@
    } else {
        Seq::empty()
    };
    let f = a % (SCALE as nat);
    if f == 0 {
        sign + decimal_digits(a / (SCALE as nat))
    } else {
        sign + decimal_digits(a / (SCALE as nat)) + "."@ + fixed_digits(f, 6)
    }
}

proof fn lemma_pow10_values()
    ensures
        pow10(0) == 1,
        pow10(1) == 10,
        pow10(2) == 100,
        pow10(3) == 1000,
        pow10(4) == 10000,
        pow10(5) == 100000,
        pow10(6) == 1000000,
        pow10(12) == 1000000000000,
{
    reveal_with_fuel(pow10, 13);
}

proof fn lemma_pow10_pos(n: nat)
    ensures
        pow10(n) >= 1,
    decreases n,
{
    if n > 0 {
        lemma_pow10_pos((n - 1) as nat);
    }
}

proof fn lemma_pow10_mono(a: nat, b: nat)
    requires
        a <= b,
    ensures
        pow10(a) <= pow10(b),
    decreases b,
{
    if a < b {
        lemma_pow10_mono(a, (b - 1) as nat);
        lemma_pow10_pos((b - 1) as nat);
    }
}

proof fn lemma_digits_step(s: Seq<char>, k: int)
    requires
        0 <= k < s.len(),
    ensures
        digits_value(s.subrange(0, k + 1)) == digits_value(s.subrange(0, k)) * 10 + digit_value(
            s[k],
        ),
{
    assert(s.subrange(0, k + 1).drop_last() =~= s.subrange(0, k));
}

proof fn lemma_digits_bound(s: Seq<char>)
    requires
        all_digits(s),
    ensures
        0 <= digits_value(s) < pow10(s.len()),
    decreases s.len(),
{
    if s.len() > 0 {
        let t = s.drop_last();
        assert(all_digits(t)) by {
            assert forall|i: int| 0 <= i < t.len() implies is_digit(#[trigger] t[i]) by {
                assert(t[i] == s[i]);
            }
        }
        lemma_digits_bound(t);
        assert(is_digit(s[s.len() - 1]));
        let p = pow10(t.len());
        let v = digits_value(t);
        let d = digit_value(s.last());
        assert(v * 10 + d < p * 10) by (nonlinear_arith)
            requires
                0 <= v < p,
                0 <= d < 10,
        ;
    }
}

proof fn lemma_dot_index(b: Seq<char>, m: int)
    requires
        0 <= m <= b.len(),
        forall|k: int| 0 <= k < m ==> #[trigger] b[k] != '.',
        m == b.len() || b[m] == '.',
    ensures
        dot_index(b) == m,
    decreases m,
{
    if m > 0 {
        let t = b.drop_first();
        assert forall|k: int| 0 <= k < m - 1 implies #[trigger] t[k] != '.' by {
            assert(t[k] == b[k + 1]);
        }
        if m < b.len() {
            assert(t[m - 1] == b[m]);
        }
        lemma_dot_index(t, m - 1);
    }
}

proof fn lemma_dot_index_range(b: Seq<char>)
    ensures
        0 <= dot_index(b) <= b.len(),
        dot_index(b) < b.len() ==> b[dot_index(b)] == '.',
        forall|k: int| 0 <= k < dot_index(b) ==> #[trigger] b[k] != '.',
    decreases b.len(),
{
    if b.len() > 0 && b[0] != '.' {
        let t = b.drop_first();
        lemma_dot_index_range(t);
        assert forall|k: int| 0 <= k < dot_index(b) implies #[trigger] b[k] != '.' by {
            if k > 0 {
                assert(b[k] == t[k - 1]);
            }
        }
    }
}

/// Reads the digits of `s` from `from` up to the first `.` or the end.
fn read_digits(s: &str, n: usize, from: usize, max: usize) -> (r: Option<(u64, usize)>)
    requires
        n == s@.len(),
        from <= n,
        max <= MAX_INT_DIGITS,
    ensures
        ({
            let t = s@.subrange(from as int, n as int);
            let d = dot_index(t);
            match r {
                Some((v, end)) => end == from + d && d <= max && all_digits(t.subrange(0, d))
                    && v == digits_value(t.subrange(0, d)),
                None => !(all_digits(t.subrange(0, d)) && d <= max),
            }
        }),
{
    let ghost t = s@.subrange(from as int, n as int);
    proof {
        lemma_dot_index_range(t);
        lemma_pow10_values();
    }
    let mut i: usize = from;
    let mut acc: u64 = 0;
    while i < n
        invariant
            n == s@.len(),
            from <= i <= n,
            max <= MAX_INT_DIGITS,
            i - from <= max,
            t == s@.subrange(from as int, n as int),
            all_digits(t.subrange(0, i - from)),
            acc == digits_value(t.subrange(0, i - from)),
            acc < pow10((i - from) as nat),
            pow10(12) == 1000000000000,
            forall|k: int| 0 <= k < i - from ==> #[trigger] t[k] != '.',
            0 <= dot_index(t) <= t.len(),
            dot_index(t) < t.len() ==> t[dot_index(t)] == '.',
            forall|k: int| 0 <= k < dot_index(t) ==> #[trigger] t[k] != '.',
        ensures
            from <= i <= n,
            i - from <= max,
            all_digits(t.subrange(0, i - from)),
            acc == digits_value(t.subrange(0, i - from)),
            forall|k: int| 0 <= k < i - from ==> #[trigger] t[k] != '.',
            i == n || t[i - from] == '.',
        decreases n - i,
    {
        let c = s.get_char(i);
        assert(c == t[i - from]);
        if c == '.' {
            break;
        }
        if !('0' <= c && c <= '9') {
            proof {
                if dot_index(t) < i - from {
                    assert(t[dot_index(t)] == '.');
                }
                assert(dot_index(t) > i - from);
                assert(t.subrange(0, dot_index(t))[i - from] == c);
            }
            return None;
        }
        if i - from == max {
            proof {
                if dot_index(t) <= i - from {
                    assert(t[dot_index(t)] == '.');
                }
            }
            return None;
        }
        proof {
            lemma_digits_step(t, i - from);
            assert(t.subrange(0, i - from + 1).drop_last() =~= t.subrange(0, i - from));
            lemma_pow10_mono((i - from + 1) as nat, 12);
            let p = pow10((i - from) as nat);
            let a = acc as int;
            let d = digit_value(c);
            assert(a * 10 + d < p * 10) by (nonlinear_arith)
                requires
                    0 <= a < p,
                    0 <= d < 10,
            ;
            assert forall|k: int| 0 <= k < i - from + 1 implies is_digit(
                #[trigger] t.subrange(0, i - from + 1)[k],
            ) by {
                if k < i - from {
                    assert(t.subrange(0, i - from + 1)[k] == t.subrange(0, i - from)[k]);
                }
            }
        }
        acc = acc * 10 + (c as u64 - '0' as u64);
        i = i + 1;
    }
    proof {
        lemma_dot_index(t, i - from);
    }
    Some((acc, i))
}

/// Powers of ten up to the sixth.
fn pow10_exec(k: usize) -> (r: u64)
    requires
        k <= 6,
    ensures
        r == pow10(k as nat),
{
    proof {
        lemma_pow10_values();
    }
    if k == 0 {
        1
    } else if k == 1 {
        10
    } else if k == 2 {
        100
    } else if k == 3 {
        1000
    } else if k == 4 {
        10000
    } else if k == 5 {
        100000
    } else {
        1000000
    }
}

/// Reads an unsigned decimal that fills `s` from `from` to its end.
fn read_unsigned(s: &str, n: usize, from: usize) -> (r: Option<u64>)
    requires
        n == s@.len(),
        from <= n,
    ensures
        match r {
            Some(v) => unsigned_decimal(s@.subrange(from as int, n as int)) == Some(v as int)
                && v < MAGNITUDE_BOUND,
            None => unsigned_decimal(s@.subrange(from as int, n as int)) is None,
        },
{
    let ghost b = s@.subrange(from as int, n as int);
    proof {
        lemma_dot_index_range(b);
        lemma_pow10_values();
    }
    let (ip, end) = match read_digits(s, n, from, MAX_INT_DIGITS) {
        Some(x) => x,
        None => {
            return None;
        },
    };
    assert(int_part(b) == b.subrange(0, end - from));
    proof {
        lemma_digits_bound(int_part(b));
        lemma_pow10_mono(int_part(b).len(), 12);
    }
    if end == n {
        assert(frac_part(b) =~= Seq::<char>::empty());
        if end == from {
            return None;
        }
        assert(digits_value(Seq::<char>::empty()) == 0);
        return Some(ip * SCALE);
    }
    let ghost f = s@.subrange(end + 1, n as int);
    assert(frac_part(b) =~= f);
    let (fv, fend) = match read_digits(s, n, end + 1, MAX_FRAC_DIGITS) {
        Some(x) => x,
        None => {
            proof {
                lemma_dot_index_range(f);
                if all_digits(f) {
                    if dot_index(f) < f.len() {
                        assert(f[dot_index(f)] == '.');
                    }
                    assert(f.subrange(0, dot_index(f)) =~= f);
                }
            }
            return None;
        },
    };
    if fend != n {
        proof {
            lemma_dot_index_range(f);
            assert(f[fend - end - 1] == '.');
        }
        return None;
    }
    assert(f.subrange(0, fend - end - 1) =~= f);
    if end == from && fend == end + 1 {
        return None;
    }
    proof {
        lemma_digits_bound(f);
        lemma_pow10_mono(f.len(), 6);
        lemma_pow10_mono((6 - f.len()) as nat, 6);
        let a = ip as int;
        let q = fv as int;
        let p = pow10((6 - f.len()) as nat);
        let pf = pow10(f.len());
        assert(pf * p == 1000000) by {
            lemma_pow10_add(f.len(), (6 - f.len()) as nat);
        }
        assert(q * p < 1000000) by (nonlinear_arith)
            requires
                0 <= q < pf,
                pf * p == 1000000,
                p >= 1,
        ;
        assert(a * 1000000 + q * p < 1000000000000000000) by (nonlinear_arith)
            requires
                0 <= a < 1000000000000,
                0 <= q * p < 1000000,
        ;
    }
    Some(ip * SCALE + fv * pow10_exec(MAX_FRAC_DIGITS - (fend - end - 1)))
}

proof fn lemma_pow10_add(a: nat, b: nat)
    ensures
        pow10(a) * pow10(b) == pow10(a + b),
    decreases a,
{
    if a > 0 {
        lemma_pow10_add((a - 1) as nat, b);
        assert(pow10(a) * pow10(b) == 10 * (pow10((a - 1) as nat) * pow10(b))) by (nonlinear_arith)
            requires
                pow10(a) == 10 * pow10((a - 1) as nat),
        ;
    }
}

/// Reads a decimal setting into micro-units.
pub fn parse_micro(s: &str) -> (r: Option<i64>)
    ensures
        match r {
            Some(v) => parse_decimal(s@) == Some(v as int) && -MAGNITUDE_BOUND < v
                < MAGNITUDE_BOUND,
            None => parse_decimal(s@) is None,
        },
{
    let n = s.unicode_len();
    if n > 0 && s.get_char(0) == '-' {
        assert(s@.subrange(1, n as int) =~= s@.drop_first());
        match read_unsigned(s, n, 1) {
            Some(v) => Some(-(v as i64)),
            None => None,
        }
    } else if n > 0 && s.get_char(0) == '+' {
        assert(s@.subrange(1, n as int) =~= s@.drop_first());
        match read_unsigned(s, n, 1) {
            Some(v) => Some(v as i64),
            None => None,
        }
    } else {
        assert(s@.subrange(0, n as int) =~= s@);
        match read_unsigned(s, n, 0) {
            Some(v) => Some(v as i64),
            None => None,
        }
    }
}

proof fn lemma_digit_char(d: int)
    requires
        0 <= d < 10,
    ensures
        is_digit(digit_char(d)),
        digit_value(digit_char(d)) == d,
        digit_char(d) != '.',
{
}

proof fn lemma_decimal_digits(n: nat)
    ensures
        all_digits(decimal_digits(n)),
        digits_value(decimal_digits(n)) == n,
        decimal_digits(n).len() >= 1,
        forall|k: nat| n < #[trigger] pow10(k) && k >= 1 ==> decimal_digits(n).len() <= k,
    decreases n,
{
    lemma_digit_char((n % 10) as int);
    if n >= 10 {
        let m = n / 10;
        lemma_decimal_digits(m);
        let s = decimal_digits(n);
        assert(s.drop_last() =~= decimal_digits(m));
        assert(s.last() == digit_char((n % 10) as int));
        assert(m * 10 + n % 10 == n);
        assert(digit_value(s.last()) == n % 10);
        assert(digits_value(s) == digits_value(s.drop_last()) * 10 + digit_value(s.last()));
        assert forall|i: int| 0 <= i < s.len() implies is_digit(#[trigger] s[i]) by {
            if i < s.len() - 1 {
                assert(s[i] == decimal_digits(m)[i]);
            }
        }
        assert forall|k: nat| n < #[trigger] pow10(k) && k >= 1 implies s.len() <= k by {
            let k1 = (k - 1) as nat;
            assert(pow10(k) == 10 * pow10(k1));
            assert(m < pow10(k1));
            if k1 == 0 {
                assert(false);
            }
        }
    } else {
        lemma_digit_char(n as int);
        let s = decimal_digits(n);
        assert(s.drop_last() =~= Seq::<char>::empty());
        assert(s.last() == digit_char(n as int));
        assert(digits_value(s) == digits_value(s.drop_last()) * 10 + digit_value(s.last()));
    }
}

proof fn lemma_fixed_digits(n: nat, w: nat)
    ensures
        all_digits(fixed_digits(n, w)),
        digits_value(fixed_digits(n, w)) == n % (pow10(w) as nat),
        fixed_digits(n, w).len() == w,
    decreases w,
{
    lemma_pow10_pos(w);
    if w > 0 {
        let w1 = (w - 1) as nat;
        lemma_fixed_digits(n / 10, w1);
        lemma_digit_char((n % 10) as int);
        let s = fixed_digits(n, w);
        assert(s.drop_last() =~= fixed_digits(n / 10, w1));
        assert forall|i: int| 0 <= i < s.len() implies is_digit(#[trigger] s[i]) by {
            if i < s.len() - 1 {
                assert(s[i] == fixed_digits(n / 10, w1)[i]);
            }
        }
        lemma_pow10_pos(w1);
        let p = pow10(w1);
        assert(((n / 10) % (p as nat)) * 10 + n % 10 == n % ((10 * p) as nat)) by (nonlinear_arith)
            requires
                p >= 1,
        {
            vstd::arithmetic::div_mod::lemma_mod_breakdown(n as int, 10, p);
        }
    }
}

proof fn lemma_no_dot_until(d: Seq<char>, rest: Seq<char>)
    requires
        all_digits(d),
    ensures
        dot_index(d + "."@ + rest) == d.len(),
        dot_index(d) == d.len(),
{
    reveal_strlit(".");
    let b = d + "."@ + rest;
    assert forall|k: int| 0 <= k < d.len() implies #[trigger] b[k] != '.' by {
        assert(b[k] == d[k]);
        assert(is_digit(d[k]));
    }
    lemma_dot_index(b, d.len() as int);
    assert forall|k: int| 0 <= k < d.len() implies #[trigger] d[k] != '.' by {
        assert(is_digit(d[k]));
    }
    lemma_dot_index(d, d.len() as int);
}

/// Formatting a setting and reading the text back gives the same setting.
pub proof fn lemma_parse_format(v: int)
    requires
        -MAGNITUDE_BOUND < v < MAGNITUDE_BOUND,
    ensures
        parse_decimal(format_decimal(v)) == Some(v),
{
    reveal_strlit("-");
    reveal_strlit(".");
    lemma_pow10_values();
    let a = abs(v);
    let q = a / (SCALE as nat);
    let f = a % (SCALE as nat);
    assert(q < 1000000000000);
    lemma_decimal_digits(q);
    let ip = decimal_digits(q);
    assert(ip.len() <= 12);
    let body = if f == 0 {
        ip
    } else {
        ip + "."@ + fixed_digits(f, 6)
    };
    lemma_no_dot_until(ip, fixed_digits(f, 6));
    lemma_fixed_digits(f, 6);
    if f == 0 {
        assert(int_part(body) =~= ip);
        assert(frac_part(body) =~= Seq::<char>::empty());
        assert(q * 1000000 == a);
        assert(unsigned_decimal(body) == Some(a as int));
    } else {
        assert(int_part(body) =~= ip);
        assert(frac_part(body) =~= fixed_digits(f, 6));
        assert(f % 1000000 == f);
        assert(q * 1000000 + f == a);
        let fp = fixed_digits(f, 6);
        assert(all_digits(fp));
        assert(fp.len() == 6);
        assert(digits_value(fp) == f);
        assert(all_digits(ip));
        assert(pow10((6 - fp.len()) as nat) == 1);
        assert(unsigned_decimal(body) == Some(a as int));
    }
    assert(is_digit(body[0]));
    if v < 0 {
        assert(format_decimal(v) =~= "-"@ + body);
        assert(format_decimal(v).drop_first() =~= body);
    } else {
        assert(format_decimal(v) =~= body);
    }
}

fn digit_str(d: u64) -> (r: &'static str)
    requires
        d < 10,
    ensures
        r@ == seq![digit_char(d as int)],
{
    if d == 0 {
        proof { reveal_strlit("0"); }
        "0"
    } else if d == 1 {
        proof { reveal_strlit("1"); }
        "1"
    } else if d == 2 {
        proof { reveal_strlit("2"); }
        "2"
    } else if d == 3 {
        proof { reveal_strlit("3"); }
        "3"
    } else if d == 4 {
        proof { reveal_strlit("4"); }
        "4"
    } else if d == 5 {
        proof { reveal_strlit("5"); }
        "5"
    } else if d == 6 {
        proof { reveal_strlit("6"); }
        "6"
    } else if d == 7 {
        proof { reveal_strlit("7"); }
        "7"
    } else if d == 8 {
        proof { reveal_strlit("8"); }
        "8"
    } else {
        proof { reveal_strlit("9"); }
        "9"
    }
}

pub(crate) fn append_digits(s: &mut String, n: u64)
    ensures
        final(s)@ == old(s)@ + decimal_digits(n as nat),
    decreases n,
{
    if n >= 10 {
        append_digits(s, n / 10);
    }
    s.append(digit_str(n % 10));
    proof {
        if n >= 10 {
            assert(decimal_digits(n as nat) == decimal_digits((n / 10) as nat).push(
                digit_char((n % 10) as int),
            ));
        }
    }
    assert(final(s)@ =~= old(s)@ + decimal_digits(n as nat));
}

fn append_fixed(s: &mut String, n: u64, w: usize)
    ensures
        final(s)@ == old(s)@ + fixed_digits(n as nat, w as nat),
    decreases w,
{
    if w > 0 {
        append_fixed(s, n / 10, w - 1);
        s.append(digit_str(n % 10));
    }
    assert(final(s)@ =~= old(s)@ + fixed_digits(n as nat, w as nat));
}

/// The text of a setting given in micro-units.
pub fn format_micro(v: i64) -> (r: String)
    requires
        -MAGNITUDE_BOUND < v < MAGNITUDE_BOUND,
    ensures
        r@ == format_decimal(v as int),
        parse_decimal(r@) == Some(v as int),
{
    let a: u64 = if v < 0 {
        (-v) as u64
    } else {
        v as u64
    };
    let mut s = if v < 0 {
        String::from_str("-")
    } else {
        String::new()
    };
    append_digits(&mut s, a / SCALE);
    let f = a % SCALE;
    if f != 0 {
        s.append(".");
        append_fixed(&mut s, f, MAX_FRAC_DIGITS);
    }
    proof {
        lemma_parse_format(v as int);
        assert(s@ =~= format_decimal(v as int));
    }
    s
}

} // verus!
