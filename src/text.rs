//! Small string utilities with exact specifications: decimal formatting,
//! zero padding, joining with a separator and left-to-right replacement.
use vstd::prelude::*;

verus! {

/// The character of a decimal digit.
pub open spec fn digit_char(d: int) -> char {
    seq!['0', '1', '2', '3', '4', '5', '6', '7', '8', '9'][d]
}

/// Base-10 rendering of a natural number, without leading zeros.
pub open spec fn decimal(n: nat) -> Seq<char>
    decreases n,
{
    if n < 10 {
        seq![digit_char(n as int)]
    } else {
        decimal(n / 10) + seq![digit_char((n % 10) as int)]
    }
}

/// `n` copies of the character `'0'`.
pub open spec fn zeros(n: nat) -> Seq<char> {
    Seq::new(n, |i: int| '0')
}

/// Base-10 rendering left-padded with zeros to at least three characters.
pub open spec fn padded3(n: nat) -> Seq<char> {
    if decimal(n).len() < 3 {
        zeros((3 - decimal(n).len()) as nat) + decimal(n)
    } else {
        decimal(n)
    }
}

/// `parts` joined with `sep` between consecutive parts.
pub open spec fn joined(parts: Seq<Seq<char>>, sep: Seq<char>) -> Seq<char>
    decreases parts.len(),
{
    if parts.len() == 0 {
        Seq::empty()
    } else if parts.len() == 1 {
        parts[0]
    } else {
        joined(parts.drop_last(), sep) + sep + parts.last()
    }
}

/// Every non-overlapping occurrence of `pat` in `s`, scanned from the left,
/// replaced by `rep`. An empty pattern leaves `s` as it is.
pub open spec fn replaced(s: Seq<char>, pat: Seq<char>, rep: Seq<char>) -> Seq<char>
    decreases s.len(),
{
    if pat.len() == 0 || s.len() < pat.len() {
        s
    } else if s.subrange(0, pat.len() as int) == pat {
        rep + replaced(s.subrange(pat.len() as int, s.len() as int), pat, rep)
    } else {
        seq![s[0]] + replaced(s.subrange(1, s.len() as int), pat, rep)
    }
}

/// When `pat` does not fit in `s`, replacing leaves `s` unchanged.
proof fn lemma_replaced_short(s: Seq<char>, pat: Seq<char>, rep: Seq<char>)
    requires
        s.len() < pat.len(),
    ensures
        replaced(s, pat, rep) == s,
{
}

fn digit_str(d: usize) -> (r: &'static str)
    requires
        d < 10,
    ensures
        r@ == seq![digit_char(d as int)],
{
    proof {
        reveal_strlit("0");
        reveal_strlit("1");
        reveal_strlit("2");
        reveal_strlit("3");
        reveal_strlit("4");
        reveal_strlit("5");
        reveal_strlit("6");
        reveal_strlit("7");
        reveal_strlit("8");
        reveal_strlit("9");
    }
    let r = if d == 0 {
        "0"
    } else if d == 1 {
        "1"
    } else if d == 2 {
        "2"
    } else if d == 3 {
        "3"
    } else if d == 4 {
        "4"
    } else if d == 5 {
        "5"
    } else if d == 6 {
        "6"
    } else if d == 7 {
        "7"
    } else if d == 8 {
        "8"
    } else {
        "9"
    };
    assert(r@ =~= seq![digit_char(d as int)]);
    r
}

/// Base-10 rendering of `n`.
pub fn decimal_string(n: usize) -> (r: String)
    ensures
        r@ == decimal(n as nat),
{
    decimal_u64(n as u64)
}

/// Base-10 rendering of `x`, with a leading `-` where it is negative.
pub open spec fn signed_decimal(x: int) -> Seq<char> {
    if x < 0 {
        seq!['-'] + decimal((-x) as nat)
    } else {
        decimal(x as nat)
    }
}

/// Base-10 rendering of `x`, with a leading `-` where it is negative.
pub fn signed_decimal_string(x: i64) -> (r: String)
    ensures
        r@ == signed_decimal(x as int),
{
    if x < 0 {
        let m: u64 = (0i128 - x as i128) as u64;
        let mut r = String::from_str("-");
        let d = decimal_u64(m);
        r.append(d.as_str());
        proof {
            reveal_strlit("-");
        }
        r
    } else {
        decimal_u64(x as u64)
    }
}

/// Base-10 rendering of `n`.
pub fn decimal_u64(n: u64) -> (r: String)
    ensures
        r@ == decimal(n as nat),
    decreases n,
{
    if n < 10 {
        String::from_str(digit_str(n as usize))
    } else {
        let mut s = decimal_u64(n / 10);
        s.append(digit_str((n % 10) as usize));
        s
    }
}

/// Base-10 rendering of `n`, left-padded with zeros to three characters.
pub fn padded3_string(n: usize) -> (r: String)
    ensures
        r@ == padded3(n as nat),
{
    let d = decimal_string(n);
    let len = d.as_str().unicode_len();
    if len < 3 {
        let mut r = String::new();
        let mut k: usize = 0;
        while k < 3 - len
            invariant
                len == d@.len(),
                len < 3,
                k <= 3 - len,
                r@ == zeros(k as nat),
            decreases 3 - len - k,
        {
            r.append("0");
            proof {
                reveal_strlit("0");
            }
            assert(r@ =~= zeros((k + 1) as nat));
            k = k + 1;
        }
        r.append(d.as_str());
        r
    } else {
        d
    }
}

/// The strings of `parts` joined with `sep` between consecutive ones.
pub fn join_strings(parts: &Vec<String>, sep: &str) -> (r: String)
    ensures
        r@ == joined(parts@.map_values(|p: String| p@), sep@),
{
    let r = join_range(parts, 0, parts.len(), sep);
    assert(parts@.subrange(0, parts.len() as int) =~= parts@);
    r
}

/// The strings of `parts` from `start` up to `end` joined with `sep`.
pub fn join_range(parts: &Vec<String>, start: usize, end: usize, sep: &str) -> (r: String)
    requires
        start <= end <= parts.len(),
    ensures
        r@ == joined(parts@.subrange(start as int, end as int).map_values(|p: String| p@), sep@),
{
    let ghost views = parts@.subrange(start as int, end as int).map_values(|p: String| p@);
    let mut r = String::new();
    let mut i: usize = start;
    while i < end
        invariant
            start <= i <= end <= parts.len(),
            views == parts@.subrange(start as int, end as int).map_values(|p: String| p@),
            r@ == joined(views.subrange(0, i - start), sep@),
        decreases end - i,
    {
        if i > start {
            r.append(sep);
        }
        r.append(parts[i].as_str());
        proof {
            let next = views.subrange(0, i - start + 1);
            assert(next.drop_last() =~= views.subrange(0, i - start));
            assert(next.last() == parts[i as int]@);
            if i == start {
                assert(r@ =~= joined(next, sep@));
            }
        }
        i = i + 1;
    }
    assert(views.subrange(0, end - start) =~= views);
    r
}

/// Whether `pat` occurs in `s` at character position `i`.
fn matches_at(s: &str, pat: &str, i: usize, n: usize, m: usize) -> (r: bool)
    requires
        n == s@.len(),
        m == pat@.len(),
        i + m <= n,
    ensures
        r == (s@.subrange(i as int, i + m) == pat@),
{
    let mut j: usize = 0;
    while j < m
        invariant
            n == s@.len(),
            m == pat@.len(),
            i + m <= n,
            j <= m,
            s@.subrange(i as int, i + j) =~= pat@.subrange(0, j as int),
        decreases m - j,
    {
        if s.get_char(i + j) != pat.get_char(j) {
            assert(s@.subrange(i as int, i + m)[j as int] != pat@[j as int]);
            return false;
        }
        assert(s@.subrange(i as int, i + j + 1) =~= pat@.subrange(0, j + 1));
        j = j + 1;
    }
    assert(pat@.subrange(0, m as int) =~= pat@);
    true
}

/// `s` with every non-overlapping occurrence of `pat`, from the left,
/// replaced by `rep`.
pub fn replace_all(s: &str, pat: &str, rep: &str) -> (r: String)
    ensures
        r@ == replaced(s@, pat@, rep@),
{
    let n = s.unicode_len();
    let m = pat.unicode_len();
    if m == 0 {
        return String::from_str(s);
    }
    let mut out = String::new();
    let mut i: usize = 0;
    proof {
        assert(s@.subrange(0, n as int) =~= s@);
        assert(out@ + replaced(s@, pat@, rep@) =~= replaced(s@, pat@, rep@));
    }
    while i < n
        invariant
            n == s@.len(),
            m == pat@.len(),
            m > 0,
            i <= n,
            out@ + replaced(s@.subrange(i as int, n as int), pat@, rep@) == replaced(
                s@,
                pat@,
                rep@,
            ),
        decreases n - i,
    {
        let ghost rest = s@.subrange(i as int, n as int);
        if m <= n - i && matches_at(s, pat, i, n, m) {
            proof {
                assert(rest.subrange(0, m as int) =~= s@.subrange(i as int, i + m));
                assert(rest.subrange(m as int, rest.len() as int) =~= s@.subrange(
                    i + m,
                    n as int,
                ));
                assert(out@ + rep@ + replaced(s@.subrange(i + m, n as int), pat@, rep@) =~= out@
                    + replaced(rest, pat@, rep@));
            }
            out.append(rep);
            i = i + m;
        } else {
            let c = s.substring_char(i, i + 1);
            proof {
                assert(rest.subrange(1, rest.len() as int) =~= s@.subrange(i + 1, n as int));
                assert(c@ =~= seq![rest[0]]);
                if i + m <= n {
                    assert(rest.subrange(0, m as int) =~= s@.subrange(i as int, i + m));
                } else {
                    lemma_replaced_short(rest, pat@, rep@);
                    lemma_replaced_short(s@.subrange(i + 1, n as int), pat@, rep@);
                    assert(rest =~= seq![rest[0]] + s@.subrange(i + 1, n as int));
                }
                assert(out@ + c@ + replaced(s@.subrange(i + 1, n as int), pat@, rep@) =~= out@
                    + replaced(rest, pat@, rep@));
            }
            out.append(c);
            i = i + 1;
        }
    }
    proof {
        assert(s@.subrange(n as int, n as int) =~= Seq::<char>::empty());
        assert(out@ + Seq::<char>::empty() =~= out@);
    }
    out
}

} // verus!
