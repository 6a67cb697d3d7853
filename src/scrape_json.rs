//! Reading the JSON document back out of a generated page.
use vstd::prelude::*;

verus! {

/// The text before the JSON document on its line of a generated page.
pub const PREFIX: &'static str = "      const data = ";

/// Why no JSON document could be read from a page.
#[derive(Debug, Clone, Copy, PartialEq, Eq, Structural)]
pub enum ScrapeError {
    /// No line holds the document
    NotFound,
    /// More than one line holds one
    Ambiguous,
}

/// The position of the first newline of `s`; `s.len()` if there is none.
pub open spec fn first_newline(s: Seq<char>) -> nat
    decreases s.len(),
{
    if s.len() == 0 {
        0
    } else if s[0] == '\n' {
        0
    } else {
        1 + first_newline(s.skip(1))
    }
}

/// `s` without a final carriage return.
pub open spec fn strip_cr(s: Seq<char>) -> Seq<char> {
    if s.len() > 0 && s.last() == '\r' {
        s.drop_last()
    } else {
        s
    }
}

/// The lines of `s`: split at each `\n`, a `\r` just before it dropped; a
/// final `\n` ends the last line.
pub open spec fn text_lines(s: Seq<char>) -> Seq<Seq<char>>
    decreases s.len(),
{
    if s.len() == 0 {
        Seq::empty()
    } else {
        let i = first_newline(s);
        if i >= s.len() {
            seq![s]
        } else {
            seq![strip_cr(s.take(i as int))] + text_lines(s.skip(i + 1int))
        }
    }
}

/// Relies on `str::lines`, whose documented split is `text_lines`.
#[verifier::external_body]
fn lines_of(s: &str) -> (r: Vec<String>)
    ensures
        r@.map_values(|l: String| l@) == text_lines(s@),
{
    s.lines().map(|l| l.to_string()).collect()
}

/// The documents of the lines `ls`: what follows the prefix on each line
/// that starts with it.
pub open spec fn documents(ls: Seq<Seq<char>>) -> Seq<Seq<char>> {
    ls.filter(|l: Seq<char>| l.len() >= PREFIX@.len() && l.take(PREFIX@.len() as int) == PREFIX@).map_values(
        |l: Seq<char>| l.skip(PREFIX@.len() as int),
    )
}

/// Whether `s` starts with `prefix`.
fn starts_with(s: &str, prefix: &str) -> (r: bool)
    ensures
        r == (s@.len() >= prefix@.len() && s@.take(prefix@.len() as int) == prefix@),
{
    let n = s.unicode_len();
    let m = prefix.unicode_len();
    if n < m {
        return false;
    }
    let mut j: usize = 0;
    while j < m
        invariant
            n == s@.len(),
            m == prefix@.len(),
            m <= n,
            j <= m,
            s@.take(j as int) =~= prefix@.take(j as int),
        decreases m - j,
    {
        if s.get_char(j) != prefix.get_char(j) {
            assert(s@.take(m as int)[j as int] != prefix@[j as int]);
            return false;
        }
        assert(s@.take(j + 1) =~= prefix@.take(j + 1));
        j = j + 1;
    }
    assert(prefix@.take(m as int) =~= prefix@);
    true
}

/// The JSON document of a generated page: the text after the prefix on the
/// one line that starts with it.
pub fn scrape_json_str_from_html(html: &str) -> (r: Result<String, ScrapeError>)
    ensures
        match r {
            Ok(d) => documents(text_lines(html@)) == seq![d@],
            Err(ScrapeError::NotFound) => documents(text_lines(html@)).len() == 0,
            Err(ScrapeError::Ambiguous) => documents(text_lines(html@)).len() > 1,
        },
{
    let ls = lines_of(html);
    let ghost lv = ls@.map_values(|l: String| l@);
    let ghost pred = |l: Seq<char>| l.len() >= PREFIX@.len() && l.take(PREFIX@.len() as int) == PREFIX@;
    let plen = PREFIX.unicode_len();
    let mut found: Vec<String> = Vec::new();
    let mut i: usize = 0;
    while i < ls.len()
        invariant
            lv == ls@.map_values(|l: String| l@),
            pred == (|l: Seq<char>| l.len() >= PREFIX@.len() && l.take(PREFIX@.len() as int) == PREFIX@),
            plen == PREFIX@.len(),
            i <= ls.len(),
            found@.map_values(|l: String| l@) == lv.subrange(0, i as int).filter(pred).map_values(
                |l: Seq<char>| l.skip(PREFIX@.len() as int),
            ),
        decreases ls.len() - i,
    {
        proof {
            let next = lv.subrange(0, i + 1);
            assert(next.drop_last() =~= lv.subrange(0, i as int));
            reveal(Seq::filter);
        }
        let line = ls[i].as_str();
        if starts_with(line, PREFIX) {
            let n = line.unicode_len();
            let rest = line.substring_char(plen, n);
            let ghost bv = found@.map_values(|l: String| l@);
            let item = String::from_str(rest);
            assert(item@ =~= lv[i as int].skip(PREFIX@.len() as int));
            found.push(item);
            let ghost f = lv.subrange(0, i as int).filter(pred);
            assert(lv.subrange(0, i + 1).filter(pred) == f.push(lv[i as int]));
            assert(found@.map_values(|l: String| l@) =~= bv.push(item@));
            assert(f.push(lv[i as int]).map_values(|l: Seq<char>| l.skip(PREFIX@.len() as int))
                =~= f.map_values(|l: Seq<char>| l.skip(PREFIX@.len() as int)).push(
                lv[i as int].skip(PREFIX@.len() as int),
            ));
        } else {
            assert(lv.subrange(0, i + 1).filter(pred) == lv.subrange(0, i as int).filter(pred));
        }
        i = i + 1;
    }
    assert(lv.subrange(0, ls.len() as int) =~= lv);
    assert(documents(text_lines(html@)) == found@.map_values(|l: String| l@));
    if found.len() == 0 {
        Err(ScrapeError::NotFound)
    } else if found.len() > 1 {
        Err(ScrapeError::Ambiguous)
    } else {
        let d = found.remove(0);
        assert(seq![d@] =~= found@.push(d).map_values(|l: String| l@)) by {
            assert(found@.len() == 0);
        }
        Ok(d)
    }
}

} // verus!
