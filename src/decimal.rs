//! Fixed-point quantities and their decimal text.
//!
//! Every physical quantity of the library (millimetres, watts, PSI, mA) is held
//! as a signed count of thousandths of its unit. This module reads such a
//! quantity from decimal text and writes it back with a chosen number of places.
use vstd::prelude::*;
use vstd::string::*;

verus! {

/// Largest whole part accepted when reading a decimal (in whole units).
pub const MAX_WHOLE: u64 = 1_000_000_000_000;

pub open spec fn is_digit(c: char) -> bool {
    '0' <= c && c <= '9'
}

pub open spec fn digit_value(c: char) -> int {
    (c as int) - ('0' as int)
}

pub open spec fn all_digits(s: Seq<char>) -> bool {
    forall|i: int| 0 <= i < s.len() ==> is_digit(#[trigger] s[i])
}

/// The natural number written by a run of decimal digits (0 for the empty run).
pub open spec fn digits_value(s: Seq<char>) -> int
    decreases s.len(),
{
    if s.len() == 0 {
        0
    } else {
        digits_value(s.drop_last()) * 10 + digit_value(s.last())
    }
}

pub open spec fn digit_at(s: Seq<char>, i: int) -> int {
    if 0 <= i < s.len() {
        digit_value(s[i])
    } else {
        0
    }
}

/// The first three digits of a fractional part, as thousandths; later digits are dropped.
pub open spec fn thousandths_of(frac: Seq<char>) -> int {
    100 * digit_at(frac, 0) + 10 * digit_at(frac, 1) + digit_at(frac, 2)
}

/// `body` is `whole.frac` with the point at `k` and digits on both sides.
pub open spec fn is_point_split(body: Seq<char>, k: int) -> bool {
    &&& 0 <= k < body.len()
    &&& body[k] == '.'
    &&& all_digits(body.take(k))
    &&& all_digits(body.skip(k + 1))
}

/// Magnitude, in thousandths, of an unsigned decimal `digits` or `digits.digits`
/// with at least one digit and a whole part of at most `MAX_WHOLE`.
pub open spec fn magnitude(body: Seq<char>) -> Option<int> {
    if all_digits(body) {
        if body.len() > 0 && digits_value(body) <= MAX_WHOLE {
            Some(digits_value(body) * 1000)
        } else {
            None
        }
    } else if exists|k: int| is_point_split(body, k) {
        let k = choose|k: int| is_point_split(body, k);
        if body.len() > 1 && digits_value(body.take(k)) <= MAX_WHOLE {
            Some(digits_value(body.take(k)) * 1000 + thousandths_of(body.skip(k + 1)))
        } else {
            None
        }
    } else {
        None
    }
}

/// Value, in thousandths, of a decimal with an optional leading `-` or `+`.
pub open spec fn decimal_value(s: Seq<char>) -> Option<int> {
    if s.len() > 0 && s[0] == '-' {
        match magnitude(s.skip(1)) {
            Some(m) => Some(-m),
            None => None,
        }
    } else if s.len() > 0 && s[0] == '+' {
        magnitude(s.skip(1))
    } else {
        magnitude(s)
    }
}

proof fn lemma_digits_prefix(s: Seq<char>, j: int)
    requires
        all_digits(s),
        0 <= j <= s.len(),
    ensures
        0 <= digits_value(s.take(j)) <= digits_value(s),
    decreases s.len(),
{
    if j == s.len() {
        assert(s.take(j) =~= s);
        if s.len() > 0 {
            lemma_digits_prefix(s.drop_last(), j - 1);
            assert(s.drop_last().take(j - 1) =~= s.drop_last());
            assert(is_digit(s[s.len() - 1]));
        }
    } else {
        lemma_digits_prefix(s.drop_last(), j);
        assert(s.drop_last().take(j) =~= s.take(j));
        assert(is_digit(s[s.len() - 1]));
    }
}

pub fn is_digit_char(c: char) -> (r: bool)
    ensures
        r == is_digit(c),
{
    '0' <= c && c <= '9'
}

fn digit_of(c: char) -> (r: u64)
    requires
        is_digit(c),
    ensures
        r == digit_value(c),
        r < 10,
{
    ((c as u32) - ('0' as u32)) as u64
}

fn digit_or_zero(t: &Vec<char>, fs: usize, hi: usize, i: usize) -> (r: u64)
    requires
        fs <= hi <= t.len(),
        i < 3,
        all_digits(t@.subrange(fs as int, hi as int)),
    ensures
        r == digit_at(t@.subrange(fs as int, hi as int), i as int),
        r < 10,
{
    if i < hi - fs {
        assert(t@.subrange(fs as int, hi as int)[i as int] == t@[fs + i]);
        digit_of(t[fs + i])
    } else {
        0
    }
}

/// End of the run of digits that starts at `from` (at most `hi`).
fn scan_digits(t: &Vec<char>, from: usize, hi: usize) -> (e: usize)
    requires
        from <= hi <= t.len(),
    ensures
        from <= e <= hi,
        all_digits(t@.subrange(from as int, e as int)),
        e < hi ==> !is_digit(t@[e as int]),
{
    let mut i = from;
    while i < hi && is_digit_char(t[i])
        invariant
            from <= i <= hi <= t.len(),
            all_digits(t@.subrange(from as int, i as int)),
        decreases hi - i,
    {
        i = i + 1;
        assert(all_digits(t@.subrange(from as int, i as int))) by {
            assert forall|m: int| 0 <= m < i - from implies is_digit(
                #[trigger] t@.subrange(from as int, i as int)[m],
            ) by {
                if m < i - 1 - from {
                    assert(t@.subrange(from as int, i as int)[m] == t@.subrange(
                        from as int,
                        i - 1 as int,
                    )[m]);
                }
            }
        }
    }
    i
}

/// Value of the digit run `t[from..e]`, unless it exceeds `MAX_WHOLE`.
pub fn whole_value(t: &Vec<char>, from: usize, e: usize) -> (r: Option<u64>)
    requires
        from <= e <= t.len(),
        all_digits(t@.subrange(from as int, e as int)),
    ensures
        r matches Some(w) ==> w == digits_value(t@.subrange(from as int, e as int)) && w
            <= MAX_WHOLE,
        r is None ==> digits_value(t@.subrange(from as int, e as int)) > MAX_WHOLE,
{
    let ghost run = t@.subrange(from as int, e as int);
    let mut i = from;
    let mut w: u64 = 0;
    while i < e
        invariant
            from <= i <= e <= t.len(),
            run == t@.subrange(from as int, e as int),
            all_digits(run),
            w == digits_value(t@.subrange(from as int, i as int)),
            w <= MAX_WHOLE,
        decreases e - i,
    {
        assert(run[i - from] == t@[i as int]);
        let d = digit_of(t[i]);
        let ghost p = t@.subrange(from as int, i + 1 as int);
        assert(p.drop_last() =~= t@.subrange(from as int, i as int));
        assert(p =~= run.take(i + 1 - from));
        if w > (MAX_WHOLE - d) / 10 {
            proof {
                lemma_digits_prefix(run, i + 1 - from);
            }
            return None;
        }
        w = w * 10 + d;
        i = i + 1;
    }
    assert(run =~= t@.subrange(from as int, i as int));
    Some(w)
}

proof fn lemma_no_point(body: Seq<char>, e: int)
    requires
        0 <= e < body.len(),
        all_digits(body.take(e)),
        !is_digit(body[e]),
        body[e] != '.',
    ensures
        magnitude(body) is None,
{
    assert(!all_digits(body));
    if exists|k: int| is_point_split(body, k) {
        let k = choose|k: int| is_point_split(body, k);
        if k < e {
            assert(body.take(e)[k] == body[k]);
        } else {
            assert(body.take(k)[e] == body[e]);
        }
    }
}

proof fn lemma_bad_fraction(body: Seq<char>, e: int, f: int)
    requires
        0 <= e < f < body.len(),
        all_digits(body.take(e)),
        body[e] == '.',
        !is_digit(body[f]),
    ensures
        magnitude(body) is None,
{
    assert(!all_digits(body)) by {
        assert(!is_digit(body[e]));
    }
    if exists|k: int| is_point_split(body, k) {
        let k = choose|k: int| is_point_split(body, k);
        if k < e {
            assert(body.take(e)[k] == body[k]);
        } else if k == e {
            assert(body.skip(k + 1)[f - k - 1] == body[f]);
        } else {
            assert(body.take(k)[e] == body[e]);
        }
    }
}

proof fn lemma_point_split_unique(body: Seq<char>, e: int)
    requires
        is_point_split(body, e),
    ensures
        !all_digits(body),
        (choose|k: int| is_point_split(body, k)) == e,
{
    assert(!is_digit(body[e]));
    assert forall|k2: int| is_point_split(body, k2) implies k2 == e by {
        if k2 < e {
            assert(body.take(e)[k2] == body[k2]);
        } else if k2 > e {
            assert(body.take(k2)[e] == body[e]);
        }
    }
}

/// Reads the unsigned decimal written by `t[start..hi]`, in thousandths.
fn parse_unsigned(t: &Vec<char>, start: usize, hi: usize) -> (r: Option<u64>)
    requires
        start <= hi <= t.len(),
    ensures
        r matches Some(v) ==> magnitude(t@.subrange(start as int, hi as int)) == Some(v as int)
            && v <= MAX_WHOLE * 1000 + 999,
        r is None ==> magnitude(t@.subrange(start as int, hi as int)) is None,
{
    let ghost body = t@.subrange(start as int, hi as int);
    let e = scan_digits(t, start, hi);
    assert(body.take(e - start) =~= t@.subrange(start as int, e as int));
    if e == hi {
        assert(body =~= t@.subrange(start as int, e as int));
        if e == start {
            return None;
        }
        return match whole_value(t, start, e) {
            Some(w) => Some(w * 1000),
            None => None,
        };
    }
    assert(body[e - start] == t@[e as int]);
    if t[e] != '.' {
        proof {
            lemma_no_point(body, e - start);
        }
        return None;
    }
    let fs = e + 1;
    let f = scan_digits(t, fs, hi);
    if f < hi {
        proof {
            assert(body[f - start] == t@[f as int]);
            lemma_bad_fraction(body, e - start, f - start);
        }
        return None;
    }
    assert(body.skip(e - start + 1) =~= t@.subrange(fs as int, hi as int));
    proof {
        lemma_point_split_unique(body, e - start);
    }
    if hi - start <= 1 {
        return None;
    }
    let w = match whole_value(t, start, e) {
        Some(w) => w,
        None => {
            return None;
        },
    };
    let d0 = digit_or_zero(t, fs, hi, 0);
    let d1 = digit_or_zero(t, fs, hi, 1);
    let d2 = digit_or_zero(t, fs, hi, 2);
    proof {
        let k = e - start;
        assert(is_point_split(body, k));
        assert(digits_value(body.take(k)) == w);
        assert(thousandths_of(body.skip(k + 1)) == 100 * d0 + 10 * d1 + d2);
    }
    Some(w * 1000 + 100 * d0 + 10 * d1 + d2)
}

/// Reads the decimal written by `t[lo..hi]`, in thousandths.
pub fn parse_decimal(t: &Vec<char>, lo: usize, hi: usize) -> (r: Option<i64>)
    requires
        lo <= hi <= t.len(),
    ensures
        r matches Some(v) ==> decimal_value(t@.subrange(lo as int, hi as int)) == Some(v as int),
        r is None ==> decimal_value(t@.subrange(lo as int, hi as int)) is None,
{
    let ghost s = t@.subrange(lo as int, hi as int);
    let neg = lo < hi && t[lo] == '-';
    let signed = lo < hi && (t[lo] == '-' || t[lo] == '+');
    let start = if signed {
        lo + 1
    } else {
        lo
    };
    assert(signed ==> t@.subrange(start as int, hi as int) =~= s.skip(1));
    assert(!signed ==> t@.subrange(start as int, hi as int) =~= s);
    match parse_unsigned(t, start, hi) {
        Some(m) => {
            if neg {
                Some(-(m as i64))
            } else {
                Some(m as i64)
            }
        },
        None => None,
    }
}

pub open spec fn digit_char(d: int) -> char {
    seq!['0', '1', '2', '3', '4', '5', '6', '7', '8', '9'][d]
}

/// Decimal digits of `n`, without leading zeros.
pub open spec fn nat_text(n: nat) -> Seq<char>
    decreases n,
{
    if n < 10 {
        seq![digit_char(n as int)]
    } else {
        nat_text(n / 10) + seq![digit_char((n % 10) as int)]
    }
}

/// The last `width` decimal digits of `n`, zero-padded.
pub open spec fn padded_text(n: nat, width: nat) -> Seq<char>
    decreases width,
{
    if width == 0 {
        seq![]
    } else {
        padded_text(n / 10, (width - 1) as nat) + seq![digit_char((n % 10) as int)]
    }
}

pub open spec fn pow10(k: nat) -> nat
    decreases k,
{
    if k == 0 {
        1
    } else {
        10 * pow10((k - 1) as nat)
    }
}

pub open spec fn abs(v: int) -> nat {
    if v < 0 {
        (-v) as nat
    } else {
        v as nat
    }
}

/// `v` thousandths rounded to `places` decimals, half away from zero, as a count of
/// the `places`-th decimal unit.
pub open spec fn rounded(v: int, places: nat) -> nat {
    let scale = pow10((3 - places) as nat);
    ((abs(v) + scale / 2) / scale) as nat
}

/// Text of the quantity `v` (thousandths) with `places` decimals: an optional
/// `-`, the whole part, a point and the decimals.
pub open spec fn fixed_text(v: int, places: nat) -> Seq<char> {
    let q = rounded(v, places);
    let sign = if v < 0 {
        seq!['-']
    } else {
        seq![]
    };
    sign + nat_text(q / pow10(places)) + seq!['.'] + padded_text(q % pow10(places), places)
}

fn digit_str(d: u64) -> (r: &'static str)
    requires
        d < 10,
    ensures
        r@ == seq![digit_char(d as int)],
{
    proof {
        reveal_strlit("0");
        reveal_strlit("1");
        reveal_strlit("2");
        reveal_strlit("3");
        reveal_strlit("4");
        reveal_strlit("5");
        reveal_strlit("6");
        reveal_strlit("7");
        reveal_strlit("8");
        reveal_strlit("9");
    }
    let r = if d == 0 {
        "0"
    } else if d == 1 {
        "1"
    } else if d == 2 {
        "2"
    } else if d == 3 {
        "3"
    } else if d == 4 {
        "4"
    } else if d == 5 {
        "5"
    } else if d == 6 {
        "6"
    } else if d == 7 {
        "7"
    } else if d == 8 {
        "8"
    } else {
        "9"
    };
    assert(r@ =~= seq![digit_char(d as int)]);
    r
}

/// Appends the decimal digits of `n`.
pub fn push_nat(out: &mut String, n: u64)
    ensures
        final(out)@ == old(out)@ + nat_text(n as nat),
    decreases n,
{
    if n >= 10 {
        push_nat(out, n / 10);
    }
    out.append(digit_str(n % 10));
    assert(final(out)@ =~= old(out)@ + nat_text(n as nat));
}

fn push_padded(out: &mut String, n: u64, width: u32)
    ensures
        final(out)@ == old(out)@ + padded_text(n as nat, width as nat),
    decreases width,
{
    if width > 0 {
        push_padded(out, n / 10, width - 1);
        out.append(digit_str(n % 10));
        assert(final(out)@ =~= old(out)@ + padded_text(n as nat, width as nat));
    } else {
        assert(final(out)@ =~= old(out)@ + padded_text(n as nat, width as nat));
    }
}

/// Appends the quantity `v` (thousandths) with `places` decimals.
pub fn push_fixed(out: &mut String, v: i64, places: u32)
    requires
        1 <= places <= 3,
    ensures
        final(out)@ == old(out)@ + fixed_text(v as int, places as nat),
{
    let a: u64 = if v < 0 {
        ((-(v + 1)) as u64) + 1
    } else {
        v as u64
    };
    assert(a == abs(v as int));
    let scale: u64 = if places == 3 {
        1
    } else if places == 2 {
        10
    } else {
        100
    };
    let unit: u64 = if places == 3 {
        1000
    } else if places == 2 {
        100
    } else {
        10
    };
    proof {
        reveal_with_fuel(pow10, 4);
        assert(scale == pow10((3 - places) as nat));
        assert(unit == pow10(places as nat));
    }
    let q = (a + scale / 2) / scale;
    assert(q == rounded(v as int, places as nat));
    let ghost before = out@;
    if v < 0 {
        proof {
            reveal_strlit("-");
        }
        out.append("-");
    }
    push_nat(out, q / unit);
    proof {
        reveal_strlit(".");
    }
    out.append(".");
    push_padded(out, q % unit, places);
    assert(out@ =~= before + fixed_text(v as int, places as nat));
}

} // verus!
