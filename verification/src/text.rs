//! Verified character-level text utilities: conversions between `&str`,
//! `Vec<char>` and `String`, substring search and replacement, joining,
//! decimal rendering and trimming. These are the building blocks for the
//! prompt construction and operator-input handling elsewhere in the crate.
use vstd::prelude::*;

verus! {

/// Relies on `String::push`: appends the given character to the end of the string.
#[verifier::external_body]
pub fn push_char(s: &mut String, c: char)
    ensures
        final(s)@ == old(s)@.push(c),
{
    s.push(c);
}

/// Collects the characters of a string slice into a vector.
pub fn chars_of(s: &str) -> (v: Vec<char>)
    ensures
        v@ == s@,
{
    let n = s.unicode_len();
    let mut v: Vec<char> = Vec::new();
    let mut i: usize = 0;
    while i < n
        invariant
            n == s@.len(),
            i <= n,
            v@ == s@.subrange(0, i as int),
        decreases n - i,
    {
        let c = s.get_char(i);
        v.push(c);
        assert(v@ =~= s@.subrange(0, i + 1));
        i += 1;
    }
    assert(v@ =~= s@);
    v
}

/// Appends the characters `v[from..to]` to a string.
pub fn push_range(s: &mut String, v: &Vec<char>, from: usize, to: usize)
    requires
        from <= to <= v@.len(),
    ensures
        final(s)@ == old(s)@ + v@.subrange(from as int, to as int),
{
    let mut i: usize = from;
    while i < to
        invariant
            from <= i <= to <= v@.len(),
            s@ == old(s)@ + v@.subrange(from as int, i as int),
        decreases to - i,
    {
        push_char(s, v[i]);
        assert(s@ =~= old(s)@ + v@.subrange(from as int, i + 1));
        i += 1;
    }
    assert(s@ =~= old(s)@ + v@.subrange(from as int, to as int));
}

/// Copies the characters `v[from..to]` into a fresh vector.
pub fn slice_of(v: &Vec<char>, from: usize, to: usize) -> (r: Vec<char>)
    requires
        from <= to <= v@.len(),
    ensures
        r@ == v@.subrange(from as int, to as int),
{
    let mut r: Vec<char> = Vec::new();
    let mut i: usize = from;
    while i < to
        invariant
            from <= i <= to <= v@.len(),
            r@ == v@.subrange(from as int, i as int),
        decreases to - i,
    {
        r.push(v[i]);
        assert(r@ =~= v@.subrange(from as int, i + 1));
        i += 1;
    }
    r
}

/// Decides equality of two string slices, character by character.
pub fn str_eq(a: &str, b: &str) -> (r: bool)
    ensures
        r == (a@ == b@),
{
    let na = a.unicode_len();
    let nb = b.unicode_len();
    if na != nb {
        return false;
    }
    let mut i: usize = 0;
    while i < na
        invariant
            na == a@.len(),
            na == b@.len(),
            i <= na,
            forall|k: int| 0 <= k < i ==> a@[k] == b@[k],
        decreases na - i,
    {
        if a.get_char(i) != b.get_char(i) {
            return false;
        }
        i += 1;
    }
    assert(a@ =~= b@);
    true
}

/// The needle occurs in the haystack starting at position `i`.
pub open spec fn occurs_at(hay: Seq<char>, needle: Seq<char>, i: int) -> bool {
    0 <= i && i + needle.len() <= hay.len() && hay.subrange(i, i + needle.len() as int)
        == needle
}

/// The needle occurs somewhere in the haystack.
pub open spec fn has_occurrence(hay: Seq<char>, needle: Seq<char>) -> bool {
    exists|i: int| occurs_at(hay, needle, i)
}

/// The least position at which the needle occurs in the haystack.
pub open spec fn first_occurrence(hay: Seq<char>, needle: Seq<char>) -> int {
    choose|i: int|
        occurs_at(hay, needle, i) && (forall|j: int|
            0 <= j < i ==> !occurs_at(hay, needle, j))
}

proof fn lemma_least_below(hay: Seq<char>, needle: Seq<char>, w: int)
    requires
        occurs_at(hay, needle, w),
    ensures
        exists|i: int|
            occurs_at(hay, needle, i) && (forall|j: int|
                0 <= j < i ==> !occurs_at(hay, needle, j)),
    decreases w,
{
    if exists|j: int| 0 <= j < w && occurs_at(hay, needle, j) {
        let j = choose|j: int| 0 <= j < w && occurs_at(hay, needle, j);
        lemma_least_below(hay, needle, j);
    } else {
        assert(occurs_at(hay, needle, w) && (forall|j: int|
            0 <= j < w ==> !occurs_at(hay, needle, j)));
    }
}

/// If the needle occurs at all, there is a least occurrence, and
/// `first_occurrence` denotes it.
pub proof fn lemma_first_occurrence(hay: Seq<char>, needle: Seq<char>)
    requires
        has_occurrence(hay, needle),
    ensures
        occurs_at(hay, needle, first_occurrence(hay, needle)),
        forall|j: int| 0 <= j < first_occurrence(hay, needle) ==> !occurs_at(hay, needle, j),
{
    let w = choose|i: int| occurs_at(hay, needle, i);
    lemma_least_below(hay, needle, w);
}

/// A position that occurs and has no earlier occurrence is the first occurrence.
pub proof fn lemma_first_occurrence_is(hay: Seq<char>, needle: Seq<char>, i: int)
    requires
        occurs_at(hay, needle, i),
        forall|j: int| 0 <= j < i ==> !occurs_at(hay, needle, j),
    ensures
        first_occurrence(hay, needle) == i,
{
    lemma_first_occurrence(hay, needle);
    let f = first_occurrence(hay, needle);
    assert(f >= i);
    assert(i >= f);
}

fn match_at(hay: &Vec<char>, needle: &Vec<char>, i: usize) -> (r: bool)
    requires
        i + needle@.len() <= hay@.len(),
    ensures
        r == occurs_at(hay@, needle@, i as int),
{
    let hn = hay.len();
    let mut j: usize = 0;
    while j < needle.len()
        invariant
            i + needle@.len() <= hay@.len(),
            hay@.len() == hn,
            j <= needle@.len(),
            forall|k: int| 0 <= k < j ==> hay@[i + k] == needle@[k],
        decreases needle@.len() - j,
    {
        if hay[i + j] != needle[j] {
            assert(hay@.subrange(i as int, i + needle@.len() as int)[j as int] == hay@[i + j]);
            return false;
        }
        j += 1;
    }
    assert(hay@.subrange(i as int, i + needle@.len() as int) =~= needle@);
    true
}

/// Finds the least position at which the needle occurs in the haystack.
pub fn find_first(hay: &Vec<char>, needle: &Vec<char>) -> (r: Option<usize>)
    ensures
        match r {
            Some(i) => occurs_at(hay@, needle@, i as int) && (forall|j: int|
                0 <= j < i ==> !occurs_at(hay@, needle@, j)),
            None => !has_occurrence(hay@, needle@),
        },
{
    if needle.len() == 0 {
        assert(occurs_at(hay@, needle@, 0)) by {
            assert(hay@.subrange(0, 0) =~= needle@);
        }
        return Some(0);
    }
    if needle.len() > hay.len() {
        return None;
    }
    let last = hay.len() - needle.len();
    let mut i: usize = 0;
    while i <= last
        invariant
            1 <= needle@.len() <= hay@.len(),
            hay@.len() <= usize::MAX,
            last == hay@.len() - needle@.len(),
            i <= last + 1,
            forall|j: int| 0 <= j < i ==> !occurs_at(hay@, needle@, j),
        decreases last + 1 - i,
    {
        if match_at(hay, needle, i) {
            return Some(i);
        }
        i += 1;
    }
    None
}

/// The haystack with the first occurrence of the needle, if any, replaced.
pub open spec fn replace_first(hay: Seq<char>, needle: Seq<char>, repl: Seq<char>) -> Seq<char> {
    if has_occurrence(hay, needle) {
        let i = first_occurrence(hay, needle);
        hay.subrange(0, i) + repl + hay.subrange(i + needle.len() as int, hay.len() as int)
    } else {
        hay
    }
}

/// Replaces the first occurrence of `needle` in `hay` with `repl`;
/// returns `hay` unchanged when `needle` does not occur.
pub fn replace_first_str(hay: &str, needle: &str, repl: &str) -> (r: String)
    ensures
        r@ == replace_first(hay@, needle@, repl@),
{
    let hv = chars_of(hay);
    let nv = chars_of(needle);
    match find_first(&hv, &nv) {
        None => hay.to_owned(),
        Some(i) => {
            proof {
                lemma_first_occurrence_is(hay@, needle@, i as int);
            }
            let hn = hv.len();
            let mut out = String::new();
            push_range(&mut out, &hv, 0, i);
            out.append(repl);
            push_range(&mut out, &hv, i + nv.len(), hn);
            assert(out@ =~= replace_first(hay@, needle@, repl@));
            out
        },
    }
}

} // verus!

verus! {

/// The haystack with every occurrence of the needle, scanned left to right,
/// replaced; an empty needle leaves the haystack unchanged.
pub open spec fn replace_all(hay: Seq<char>, needle: Seq<char>, repl: Seq<char>) -> Seq<char>
    decreases hay.len(),
    via replace_all_decreases
{
    if needle.len() == 0 || !has_occurrence(hay, needle) {
        hay
    } else {
        let i = first_occurrence(hay, needle);
        hay.subrange(0, i) + repl + replace_all(
            hay.subrange(i + needle.len() as int, hay.len() as int),
            needle,
            repl,
        )
    }
}

#[via_fn]
proof fn replace_all_decreases(hay: Seq<char>, needle: Seq<char>, repl: Seq<char>) {
    if needle.len() > 0 && has_occurrence(hay, needle) {
        lemma_first_occurrence(hay, needle);
    }
}

/// Replaces every occurrence of `needle` in `hay` with `repl`, scanning
/// left to right; occurrences are never re-scanned inside a replacement.
#[verifier::rlimit(100)]
pub fn replace_all_str(hay: &str, needle: &str, repl: &str) -> (r: String)
    ensures
        r@ == replace_all(hay@, needle@, repl@),
{
    let nv = chars_of(needle);
    if nv.len() == 0 {
        return hay.to_owned();
    }
    let hv = chars_of(hay);
    let hn = hv.len();
    let mut out = String::new();
    let mut pos: usize = 0;
    assert(hv@.subrange(0, hn as int) =~= hay@);
    assert(out@ + replace_all(hay@, needle@, repl@) =~= replace_all(hay@, needle@, repl@));
    loop
        invariant
            1 <= nv@.len(),
            nv@ == needle@,
            hv@ == hay@,
            hn == hv@.len(),
            pos <= hn,
            out@ + replace_all(hv@.subrange(pos as int, hn as int), needle@, repl@)
                == replace_all(hay@, needle@, repl@),
        decreases hn - pos,
    {
        let ghost rest = hv@.subrange(pos as int, hn as int);
        let tail = slice_of(&hv, pos, hn);
        match find_first(&tail, &nv) {
            None => {
                push_range(&mut out, &hv, pos, hn);
                proof {
                    assert(replace_all(rest, needle@, repl@) == rest);
                }
                assert(out@ =~= replace_all(hay@, needle@, repl@));
                return out;
            },
            Some(i) => {
                proof {
                    lemma_first_occurrence_is(rest, needle@, i as int);
                    assert(replace_all(rest, needle@, repl@) == rest.subrange(0, i as int) + repl@
                        + replace_all(
                        rest.subrange(i + needle@.len() as int, rest.len() as int),
                        needle@,
                        repl@,
                    ));
                }
                push_range(&mut out, &hv, pos, pos + i);
                assert(hv@.subrange(pos as int, pos + i) =~= rest.subrange(0, i as int));
                out.append(repl);
                let newpos = pos + i + nv.len();
                assert(hv@.subrange(newpos as int, hn as int) =~= rest.subrange(
                    i + needle@.len() as int,
                    rest.len() as int,
                ));
                pos = newpos;
            },
        }
    }
}

/// The items joined by the separator: empty for no items, the single item
/// alone, and otherwise each item followed by the separator and the rest.
pub open spec fn join_seqs(items: Seq<Seq<char>>, sep: Seq<char>) -> Seq<char>
    decreases items.len(),
{
    if items.len() == 0 {
        Seq::empty()
    } else if items.len() == 1 {
        items[0]
    } else {
        items[0] + sep + join_seqs(items.drop_first(), sep)
    }
}

proof fn lemma_join_push(items: Seq<Seq<char>>, sep: Seq<char>, x: Seq<char>)
    ensures
        join_seqs(items.push(x), sep) == if items.len() == 0 {
            x
        } else {
            join_seqs(items, sep) + sep + x
        },
    decreases items.len(),
{
    if items.len() == 0 {
        assert(items.push(x).len() == 1);
        assert(join_seqs(items.push(x), sep) == items.push(x)[0]);
        assert(items.push(x)[0] == x);
    } else {
        assert(items.push(x).drop_first() =~= items.drop_first().push(x));
        lemma_join_push(items.drop_first(), sep, x);
        if items.len() == 1 {
            assert(items.drop_first().len() == 0);
            assert(join_seqs(items.push(x), sep) == items[0] + sep + x);
            assert(join_seqs(items, sep) == items[0]);
        } else {
            assert(join_seqs(items.push(x), sep) == items[0] + sep + (join_seqs(
                items.drop_first(),
                sep,
            ) + sep + x));
            assert(items[0] + sep + (join_seqs(items.drop_first(), sep) + sep + x) =~= (items[0]
                + sep + join_seqs(items.drop_first(), sep)) + sep + x);
        }
    }
}

/// Joins the items with the separator between consecutive items.
pub fn join_strings(items: &Vec<String>, sep: &str) -> (r: String)
    ensures
        r@ == join_seqs(items.deep_view(), sep@),
{
    let mut out = String::new();
    let mut i: usize = 0;
    while i < items.len()
        invariant
            i <= items@.len(),
            items.deep_view().len() == items@.len(),
            out@ == join_seqs(items.deep_view().subrange(0, i as int), sep@),
        decreases items@.len() - i,
    {
        if i > 0 {
            out.append(sep);
        }
        out.append(items[i].as_str());
        proof {
            let prefix = items.deep_view().subrange(0, i as int);
            lemma_join_push(prefix, sep@, items.deep_view()[i as int]);
            assert(prefix.push(items.deep_view()[i as int]) =~= items.deep_view().subrange(
                0,
                i + 1,
            ));
            assert(items.deep_view()[i as int] == items@[i as int]@);
        }
        i += 1;
    }
    assert(items.deep_view().subrange(0, items.deep_view().len() as int) =~= items.deep_view());
    out
}

} // verus!

verus! {

/// The character for one decimal digit.
pub open spec fn dec_digit(d: nat) -> char {
    if d == 0 {
        '0'
    } else if d == 1 {
        '1'
    } else if d == 2 {
        '2'
    } else if d == 3 {
        '3'
    } else if d == 4 {
        '4'
    } else if d == 5 {
        '5'
    } else if d == 6 {
        '6'
    } else if d == 7 {
        '7'
    } else if d == 8 {
        '8'
    } else {
        '9'
    }
}

/// The decimal rendering of a natural number, without leading zeroes.
pub open spec fn dec_str(n: nat) -> Seq<char>
    decreases n,
{
    if n < 10 {
        seq![dec_digit(n)]
    } else {
        dec_str(n / 10).push(dec_digit(n % 10))
    }
}

fn dec_digit_char(d: usize) -> (c: char)
    requires
        d < 10,
    ensures
        c == dec_digit(d as nat),
{
    if d == 0 {
        '0'
    } else if d == 1 {
        '1'
    } else if d == 2 {
        '2'
    } else if d == 3 {
        '3'
    } else if d == 4 {
        '4'
    } else if d == 5 {
        '5'
    } else if d == 6 {
        '6'
    } else if d == 7 {
        '7'
    } else if d == 8 {
        '8'
    } else {
        '9'
    }
}

fn push_decimal(out: &mut String, n: usize)
    ensures
        final(out)@ == old(out)@ + dec_str(n as nat),
    decreases n,
{
    if n < 10 {
        push_char(out, dec_digit_char(n));
        assert(old(out)@.push(dec_digit(n as nat)) =~= old(out)@ + dec_str(n as nat));
    } else {
        push_decimal(out, n / 10);
        push_char(out, dec_digit_char(n % 10));
        assert((old(out)@ + dec_str(n as nat / 10)).push(dec_digit(n as nat % 10)) =~= old(out)@
            + dec_str(n as nat));
    }
}

/// Renders a number in decimal.
pub fn usize_to_string(n: usize) -> (r: String)
    ensures
        r@ == dec_str(n as nat),
{
    let mut out = String::new();
    push_decimal(&mut out, n);
    assert(out@ =~= dec_str(n as nat));
    out
}

/// The characters that `str::trim` removes at either end of a string.
pub open spec fn is_space(c: char) -> bool {
    c == ' ' || c == '\t' || c == '\n' || c == '\r' || c == '\u{000B}' || c == '\u{000C}' || c
        == '\u{0085}' || c == '\u{00A0}' || c == '\u{1680}' || c == '\u{2000}' || c == '\u{2001}'
        || c == '\u{2002}' || c == '\u{2003}' || c == '\u{2004}' || c == '\u{2005}' || c
        == '\u{2006}' || c == '\u{2007}' || c == '\u{2008}' || c == '\u{2009}' || c == '\u{200A}'
        || c == '\u{2028}' || c == '\u{2029}' || c == '\u{202F}' || c == '\u{205F}' || c
        == '\u{3000}'
}

fn is_space_char(c: char) -> (r: bool)
    ensures
        r == is_space(c),
{
    c == ' ' || c == '\t' || c == '\n' || c == '\r' || c == '\u{000B}' || c == '\u{000C}' || c
        == '\u{0085}' || c == '\u{00A0}' || c == '\u{1680}' || c == '\u{2000}' || c == '\u{2001}'
        || c == '\u{2002}' || c == '\u{2003}' || c == '\u{2004}' || c == '\u{2005}' || c
        == '\u{2006}' || c == '\u{2007}' || c == '\u{2008}' || c == '\u{2009}' || c == '\u{200A}'
        || c == '\u{2028}' || c == '\u{2029}' || c == '\u{202F}' || c == '\u{205F}' || c
        == '\u{3000}'
}

/// A string with its leading whitespace removed.
pub open spec fn trim_start_spec(s: Seq<char>) -> Seq<char>
    decreases s.len(),
{
    if s.len() > 0 && is_space(s[0]) {
        trim_start_spec(s.drop_first())
    } else {
        s
    }
}

/// A string with its trailing whitespace removed.
pub open spec fn trim_end_spec(s: Seq<char>) -> Seq<char>
    decreases s.len(),
{
    if s.len() > 0 && is_space(s.last()) {
        trim_end_spec(s.drop_last())
    } else {
        s
    }
}

/// A string with whitespace removed at both ends, as `str::trim` leaves it.
pub open spec fn trim_spec(s: Seq<char>) -> Seq<char> {
    trim_end_spec(trim_start_spec(s))
}

/// Removes whitespace at both ends of a string.
pub fn trim_chars(s: &str) -> (r: Vec<char>)
    ensures
        r@ == trim_spec(s@),
{
    let v = chars_of(s);
    let n = v.len();
    assert(v@.subrange(0, n as int) =~= s@);
    let mut lo: usize = 0;
    while lo < n && is_space_char(v[lo])
        invariant
            n == v@.len(),
            v@ == s@,
            lo <= n,
            trim_start_spec(s@) == trim_start_spec(v@.subrange(lo as int, n as int)),
        decreases n - lo,
    {
        assert(v@.subrange(lo as int, n as int).drop_first() =~= v@.subrange(lo + 1, n as int));
        lo += 1;
    }
    assert(trim_start_spec(s@) == v@.subrange(lo as int, n as int));
    let mut hi: usize = n;
    while hi > lo && is_space_char(v[hi - 1])
        invariant
            n == v@.len(),
            v@ == s@,
            lo <= hi <= n,
            trim_start_spec(s@) == v@.subrange(lo as int, n as int),
            trim_end_spec(v@.subrange(lo as int, n as int)) == trim_end_spec(
                v@.subrange(lo as int, hi as int),
            ),
        decreases hi,
    {
        assert(v@.subrange(lo as int, hi as int).drop_last() =~= v@.subrange(lo as int, hi - 1));
        hi -= 1;
    }
    assert(trim_spec(s@) == v@.subrange(lo as int, hi as int));
    slice_of(&v, lo, hi)
}

/// The operator's line is the rejection token: the letter n in either case,
/// once surrounding whitespace is removed.
pub open spec fn is_rejection_spec(line: Seq<char>) -> bool {
    trim_spec(line) == seq!['n'] || trim_spec(line) == seq!['N']
}

/// Decides whether an approval-prompt answer rejects the draft; any other
/// answer, the empty line included, accepts it.
pub fn is_rejection(line: &str) -> (r: bool)
    ensures
        r == is_rejection_spec(line@),
{
    let t = trim_chars(line);
    if t.len() == 1 && (t[0] == 'n' || t[0] == 'N') {
        assert(t@ =~= seq![t@[0]]);
        true
    } else {
        assert(t@ == seq!['n'] ==> t@.len() == 1 && t@[0] == 'n');
        assert(t@ == seq!['N'] ==> t@.len() == 1 && t@[0] == 'N');
        false
    }
}

/// The operator's line is the explicit consent token: exactly the letter
/// y, once surrounding whitespace is removed.
pub open spec fn is_consent_spec(line: Seq<char>) -> bool {
    trim_spec(line) == seq!['y']
}

/// Decides whether a continue-prompt answer explicitly consents; any other
/// answer, the empty line included, declines.
pub fn is_consent(line: &str) -> (r: bool)
    ensures
        r == is_consent_spec(line@),
{
    let t = trim_chars(line);
    if t.len() == 1 && t[0] == 'y' {
        assert(t@ =~= seq!['y']);
        true
    } else {
        assert(t@ == seq!['y'] ==> t@.len() == 1 && t@[0] == 'y');
        false
    }
}

} // verus!
