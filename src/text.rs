//! Text building blocks: decimal rendering, padding, quote escaping,
//! single-marker substitution, and the outside text transforms.
use vstd::prelude::*;
use heck::ToSnakeCase;
use heck::ToUpperCamelCase;

verus! {

/// What `str::trim` returns for a text.
pub uninterp spec fn trim_of(s: Seq<char>) -> Seq<char>;

/// What heck's snake-case conversion returns for a text.
pub uninterp spec fn snake_of(s: Seq<char>) -> Seq<char>;

/// What heck's upper-camel-case conversion returns for a text.
pub uninterp spec fn upper_camel_of(s: Seq<char>) -> Seq<char>;

/// What `String::from_utf8_lossy` decodes from a byte sequence.
pub uninterp spec fn lossy_of(b: Seq<u8>) -> Seq<char>;

/// Relies on `String::push`: appends one character.
#[verifier::external_body]
pub(crate) fn push_char(s: &mut String, c: char)
    ensures
        final(s)@ == old(s)@.push(c),
{
    s.push(c)
}

/// Relies on `str::trim`: leading and trailing whitespace removed.
#[verifier::external_body]
pub(crate) fn trim_text(s: &str) -> (r: String)
    ensures
        r@ == trim_of(s@),
{
    s.trim().to_string()
}

/// Relies on heck's `ToSnakeCase::to_snake_case` for `str`.
#[verifier::external_body]
pub(crate) fn snake_case(s: &str) -> (r: String)
    ensures
        r@ == snake_of(s@),
{
    s.to_snake_case()
}

/// Relies on heck's `ToUpperCamelCase::to_upper_camel_case` for `str`.
#[verifier::external_body]
pub(crate) fn upper_camel_case(s: &str) -> (r: String)
    ensures
        r@ == upper_camel_of(s@),
{
    s.to_upper_camel_case()
}

/// Relies on `String::from_utf8_lossy`: the bytes decoded as UTF-8, invalid
/// sequences replaced.
#[verifier::external_body]
pub(crate) fn utf8_lossy(b: &[u8]) -> (r: String)
    ensures
        r@ == lossy_of(b@),
{
    String::from_utf8_lossy(b).into_owned()
}

/// Relies on chrono's `Local::now` and `format`: the local time written as
/// `YYYY_MM_DD_HHMMSS`. Nothing is promised of the value.
#[verifier::external_body]
pub(crate) fn local_timestamp() -> (r: String) {
    chrono::Local::now().format("%Y_%m_%d_%H%M%S").to_string()
}

pub open spec fn digit_char(d: nat) -> char {
    if d == 0 { '0' }
    else if d == 1 { '1' }
    else if d == 2 { '2' }
    else if d == 3 { '3' }
    else if d == 4 { '4' }
    else if d == 5 { '5' }
    else if d == 6 { '6' }
    else if d == 7 { '7' }
    else if d == 8 { '8' }
    else { '9' }
}

/// Decimal digits of a natural number, most significant first, no leading zeros.
pub open spec fn dec_nat(n: nat) -> Seq<char>
    decreases n,
{
    if n < 10 {
        seq![digit_char(n)]
    } else {
        dec_nat(n / 10).push(digit_char(n % 10))
    }
}

/// Decimal text of an integer, with a leading `-` when negative.
pub open spec fn dec_int(i: int) -> Seq<char> {
    if i < 0 {
        seq!['-'] + dec_nat((-i) as nat)
    } else {
        dec_nat(i as nat)
    }
}

/// `s` left-padded with zeros to at least `w` characters.
pub open spec fn zero_pad(s: Seq<char>, w: nat) -> Seq<char> {
    if s.len() >= w {
        s
    } else {
        Seq::new((w - s.len()) as nat, |_i: int| '0') + s
    }
}

/// Every single quote preceded by a backslash.
pub open spec fn escape_quotes(s: Seq<char>) -> Seq<char>
    decreases s.len(),
{
    if s.len() == 0 {
        Seq::empty()
    } else {
        let c = s.last();
        escape_quotes(s.drop_last()) + (if c == '\'' { seq!['\\', '\''] } else { seq![c] })
    }
}

/// `s` in single quotes, with its own quotes escaped.
pub open spec fn quoted(s: Seq<char>) -> Seq<char> {
    seq!['\''] + escape_quotes(s) + seq!['\'']
}

pub open spec fn occurs_at(t: Seq<char>, m: Seq<char>, p: int) -> bool {
    0 <= p && p + m.len() <= t.len() && t.subrange(p, p + m.len()) == m
}

/// `m` occurs in `t` at `p` and nowhere else.
pub open spec fn only_at(t: Seq<char>, m: Seq<char>, p: int) -> bool {
    occurs_at(t, m, p) && forall|q: int| q != p ==> !#[trigger] occurs_at(t, m, q)
}

/// `t` with the sole occurrence of `m` replaced by `r`; `None` unless `m`
/// occurs exactly once.
pub open spec fn replace_sole(t: Seq<char>, m: Seq<char>, r: Seq<char>) -> Option<Seq<char>> {
    if exists|p: int| only_at(t, m, p) {
        let p = choose|p: int| only_at(t, m, p);
        Some(t.subrange(0, p) + r + t.subrange(p + m.len(), t.len() as int))
    } else {
        None
    }
}

fn digit(d: u64) -> (c: char)
    requires
        d < 10,
    ensures
        c == digit_char(d as nat),
{
    if d == 0 { '0' }
    else if d == 1 { '1' }
    else if d == 2 { '2' }
    else if d == 3 { '3' }
    else if d == 4 { '4' }
    else if d == 5 { '5' }
    else if d == 6 { '6' }
    else if d == 7 { '7' }
    else if d == 8 { '8' }
    else { '9' }
}

/// Appends the decimal digits of `n`.
pub fn push_decimal(out: &mut String, n: u64)
    ensures
        final(out)@ == old(out)@ + dec_nat(n as nat),
    decreases n,
{
    if n >= 10 {
        push_decimal(out, n / 10);
    }
    push_char(out, digit(n % 10));
    proof {
        if n >= 10 {
            assert(final(out)@ =~= old(out)@ + dec_nat(n as nat));
        } else {
            assert(final(out)@ =~= old(out)@ + dec_nat(n as nat));
        }
    }
}

/// Decimal text of an unsigned integer.
pub fn decimal_u64(n: u64) -> (r: String)
    ensures
        r@ == dec_nat(n as nat),
{
    let mut s = String::new();
    push_decimal(&mut s, n);
    assert(s@ =~= dec_nat(n as nat));
    s
}

/// Decimal text of a signed integer.
pub fn decimal_i64(i: i64) -> (r: String)
    ensures
        r@ == dec_int(i as int),
{
    let mut s = String::new();
    if i < 0 {
        push_char(&mut s, '-');
        let m: u64 = (-(i as i128)) as u64;
        push_decimal(&mut s, m);
        assert(s@ =~= dec_int(i as int));
    } else {
        push_decimal(&mut s, i as u64);
        assert(s@ =~= dec_int(i as int));
    }
    s
}

/// `s` left-padded with zeros to at least `w` characters.
pub fn pad_zeros(s: &str, w: usize) -> (r: String)
    ensures
        r@ == zero_pad(s@, w as nat),
{
    let n = s.unicode_len();
    let mut r = String::new();
    if n < w {
        let mut k: usize = 0;
        while k < w - n
            invariant
                n == s@.len(),
                n < w,
                k <= w - n,
                r@ == Seq::new(k as nat, |_i: int| '0'),
            decreases w - n - k,
        {
            push_char(&mut r, '0');
            k = k + 1;
            assert(r@ =~= Seq::new(k as nat, |_i: int| '0'));
        }
    }
    r.append(s);
    assert(r@ =~= zero_pad(s@, w as nat));
    r
}

/// Appends `s` with every single quote escaped by a backslash.
pub fn push_escaped(out: &mut String, s: &str)
    ensures
        final(out)@ == old(out)@ + escape_quotes(s@),
{
    let n = s.unicode_len();
    let mut i: usize = 0;
    while i < n
        invariant
            n == s@.len(),
            i <= n,
            out@ == old(out)@ + escape_quotes(s@.subrange(0, i as int)),
        decreases n - i,
    {
        let c = s.get_char(i);
        if c == '\'' {
            push_char(out, '\\');
        }
        push_char(out, c);
        assert(s@.subrange(0, i as int + 1).drop_last() =~= s@.subrange(0, i as int));
        i = i + 1;
        assert(out@ =~= old(out)@ + escape_quotes(s@.subrange(0, i as int)));
    }
    assert(s@.subrange(0, n as int) =~= s@);
}

/// Appends `s` in single quotes with its quotes escaped.
pub fn push_quoted(out: &mut String, s: &str)
    ensures
        final(out)@ == old(out)@ + quoted(s@),
{
    push_char(out, '\'');
    push_escaped(out, s);
    push_char(out, '\'');
    assert(out@ =~= old(out)@ + quoted(s@));
}

fn chars_of(s: &str) -> (v: Vec<char>)
    ensures
        v@ == s@,
{
    let n = s.unicode_len();
    let mut v: Vec<char> = Vec::new();
    let mut i: usize = 0;
    while i < n
        invariant
            n == s@.len(),
            i <= n,
            v@ == s@.subrange(0, i as int),
        decreases n - i,
    {
        v.push(s.get_char(i));
        i = i + 1;
        assert(v@ =~= s@.subrange(0, i as int));
    }
    assert(v@ =~= s@);
    v
}

fn matches_at(t: &Vec<char>, m: &Vec<char>, p: usize) -> (b: bool)
    requires
        p + m@.len() <= t@.len(),
    ensures
        b == occurs_at(t@, m@, p as int),
{
    let tl = t.len();
    let mut j: usize = 0;
    while j < m.len()
        invariant
            tl == t@.len(),
            p + m@.len() <= t@.len(),
            j <= m@.len(),
            forall|k: int| 0 <= k < j ==> t@[p + k] == m@[k],
        decreases m@.len() - j,
    {
        if t[p + j] != m[j] {
            assert(t@.subrange(p as int, p + m@.len())[j as int] != m@[j as int]);
            return false;
        }
        j = j + 1;
    }
    assert(t@.subrange(p as int, p + m@.len()) =~= m@);
    true
}

/// Replaces the sole occurrence of the non-empty marker `m` in `t` by `r`;
/// `None` when `m` occurs zero or several times.
pub fn replace_sole_marker(t: &str, m: &str, r: &str) -> (out: Option<String>)
    requires
        m@.len() > 0,
    ensures
        match out {
            Some(s) => replace_sole(t@, m@, r@) == Some(s@),
            None => replace_sole(t@, m@, r@) is None,
        },
{
    let tv = chars_of(t);
    let mv = chars_of(m);
    let n = tv.len();
    let k = mv.len();
    if k > n {
        assert forall|q: int| !occurs_at(t@, m@, q) by {}
        return None;
    }
    let mut found: Option<usize> = None;
    let mut i: usize = 0;
    while i <= n - k
        invariant
            tv@ == t@,
            mv@ == m@,
            n == t@.len(),
            k == m@.len(),
            0 < k <= n,
            i <= n - k + 1,
            match found {
                Some(p) => p < i && occurs_at(t@, m@, p as int)
                    && forall|q: int| 0 <= q < i && q != p ==> !#[trigger] occurs_at(t@, m@, q),
                None => forall|q: int| 0 <= q < i ==> !#[trigger] occurs_at(t@, m@, q),
            },
        decreases n - k + 1 - i,
    {
        if matches_at(&tv, &mv, i) {
            match found {
                Some(p) => {
                    assert(!only_at(t@, m@, p as int));
                    assert forall|q: int| !only_at(t@, m@, q) by {
                        if q != p && q != i {
                            assert(occurs_at(t@, m@, p as int));
                        } else if q == p {
                            assert(occurs_at(t@, m@, i as int));
                        }
                    }
                    return None;
                }
                None => {
                    found = Some(i);
                }
            }
        }
        i = i + 1;
    }
    assert forall|q: int| q > n - k implies !#[trigger] occurs_at(t@, m@, q) by {}
    match found {
        Some(p) => {
            assert(only_at(t@, m@, p as int));
            assert forall|q: int| only_at(t@, m@, q) implies q == p by {}
            let mut s = String::new();
            s.append(t.substring_char(0, p));
            s.append(r);
            s.append(t.substring_char(p + k, n));
            Some(s)
        }
        None => {
            assert forall|q: int| !only_at(t@, m@, q) by {}
            None
        }
    }
}

} // verus!
