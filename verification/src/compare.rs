//! Whitespace-normalised output comparison.
//!
//! Two outputs count as equal when, after splitting each into lines,
//! stripping trailing whitespace from every line, and eliding trailing empty
//! lines, the two line sequences are byte-identical.  The rule is symmetric
//! on both sides and handles carriage-return/line-feed endings and trailing
//! newlines uniformly.

use vstd::prelude::*;

verus! {

/// The line separator.
pub const LINE_FEED: u8 = 0x0a;

/// Whether a byte counts as (ASCII) whitespace when trimming line ends.
pub open spec fn is_ws_byte(b: u8) -> bool {
    b == 0x09 || b == 0x0a || b == 0x0b || b == 0x0c || b == 0x0d || b == 0x20
}

/// Index of the first line feed in `s`, or `s.len()` if there is none.
pub open spec fn first_line_feed(s: Seq<u8>) -> nat
    decreases s.len(),
{
    if s.len() == 0 {
        0
    } else if s[0] == LINE_FEED {
        0
    } else {
        1 + first_line_feed(s.skip(1))
    }
}

/// The lines of `s`: maximal line-feed-free runs, where a final line feed
/// terminates the last line rather than opening an empty one.
pub open spec fn spec_lines(s: Seq<u8>) -> Seq<Seq<u8>>
    decreases s.len(),
{
    if s.len() == 0 {
        Seq::empty()
    } else {
        let i = first_line_feed(s);
        if i >= s.len() {
            seq![s]
        } else {
            seq![s.take(i as int)] + spec_lines(s.skip(i as int + 1))
        }
    }
}

/// `l` without its trailing whitespace.
pub open spec fn spec_trim_end(l: Seq<u8>) -> Seq<u8>
    decreases l.len(),
{
    if l.len() == 0 {
        l
    } else if is_ws_byte(l.last()) {
        spec_trim_end(l.drop_last())
    } else {
        l
    }
}

/// `ls` without its trailing empty lines.
pub open spec fn spec_drop_trailing_blank(ls: Seq<Seq<u8>>) -> Seq<Seq<u8>>
    decreases ls.len(),
{
    if ls.len() == 0 {
        ls
    } else if ls.last().len() == 0 {
        spec_drop_trailing_blank(ls.drop_last())
    } else {
        ls
    }
}

/// The canonical form of an output: its lines, each trimmed of trailing
/// whitespace, with trailing empty lines elided.
pub open spec fn spec_normalized(s: Seq<u8>) -> Seq<Seq<u8>> {
    spec_drop_trailing_blank(spec_lines(s).map_values(|l: Seq<u8>| spec_trim_end(l)))
}

/// Whether two outputs are equal up to trailing whitespace per line and
/// trailing empty lines.
pub open spec fn spec_outputs_match(a: Seq<u8>, b: Seq<u8>) -> bool {
    spec_normalized(a) == spec_normalized(b)
}

/// The views of a sequence of byte vectors.
pub open spec fn views_of(ls: Seq<Vec<u8>>) -> Seq<Seq<u8>> {
    Seq::new(ls.len(), |i: int| ls[i]@)
}

proof fn lemma_first_line_feed(s: Seq<u8>)
    ensures
        first_line_feed(s) <= s.len(),
        forall|j: int| 0 <= j < first_line_feed(s) ==> s[j] != LINE_FEED,
        first_line_feed(s) < s.len() ==> s[first_line_feed(s) as int] == LINE_FEED,
    decreases s.len(),
{
    if s.len() != 0 && s[0] != LINE_FEED {
        lemma_first_line_feed(s.skip(1));
        assert forall|j: int| 0 <= j < first_line_feed(s) implies s[j] != LINE_FEED by {
            if j > 0 {
                assert(s.skip(1)[j - 1] == s[j]);
            }
        }
    }
}

proof fn lemma_first_line_feed_concat(cur: Seq<u8>, rest: Seq<u8>)
    requires
        forall|j: int| 0 <= j < cur.len() ==> cur[j] != LINE_FEED,
    ensures
        first_line_feed(cur + seq![LINE_FEED] + rest) == cur.len(),
    decreases cur.len(),
{
    let s = cur + seq![LINE_FEED] + rest;
    if cur.len() == 0 {
        assert(s[0] == LINE_FEED);
    } else {
        assert(s[0] == cur[0]);
        lemma_first_line_feed_concat(cur.skip(1), rest);
        assert(s.skip(1) =~= cur.skip(1) + seq![LINE_FEED] + rest);
    }
}

/// Splitting off one complete line: a line-feed-free prefix followed by a
/// line feed contributes exactly one line.
proof fn lemma_lines_unfold(cur: Seq<u8>, rest: Seq<u8>)
    requires
        forall|j: int| 0 <= j < cur.len() ==> cur[j] != LINE_FEED,
    ensures
        spec_lines(cur + seq![LINE_FEED] + rest) == seq![cur] + spec_lines(rest),
{
    let s = cur + seq![LINE_FEED] + rest;
    lemma_first_line_feed_concat(cur, rest);
    assert(s.take(cur.len() as int) =~= cur);
    assert(s.skip(cur.len() as int + 1) =~= rest);
}

/// A line-feed-free text is at most one line.
proof fn lemma_lines_no_feed(s: Seq<u8>)
    requires
        forall|j: int| 0 <= j < s.len() ==> s[j] != LINE_FEED,
    ensures
        spec_lines(s) == if s.len() == 0 { Seq::<Seq<u8>>::empty() } else { seq![s] },
{
    lemma_first_line_feed(s);
}

/// Split `content` into its lines.
pub fn split_lines(content: &Vec<u8>) -> (lines: Vec<Vec<u8>>)
    ensures
        views_of(lines@) == spec_lines(content@),
{
    let mut lines: Vec<Vec<u8>> = Vec::new();
    let mut cur: Vec<u8> = Vec::new();
    let mut i: usize = 0;
    proof {
        assert(cur@ + content@.skip(0) =~= content@);
    }
    while i < content.len()
        invariant
            i <= content@.len(),
            forall|j: int| 0 <= j < cur@.len() ==> cur@[j] != LINE_FEED,
            spec_lines(content@) == views_of(lines@) + spec_lines(cur@ + content@.skip(i as int)),
        decreases content@.len() - i,
    {
        let b = content[i];
        if b == LINE_FEED {
            let ghost prev = lines@;
            let ghost curv = cur@;
            proof {
                assert(curv + content@.skip(i as int) =~= curv + seq![LINE_FEED] + content@.skip(
                    i as int + 1,
                ));
                lemma_lines_unfold(curv, content@.skip(i as int + 1));
                assert(views_of(prev) + (seq![curv] + spec_lines(content@.skip(i as int + 1)))
                    =~= (views_of(prev) + seq![curv]) + spec_lines(content@.skip(i as int + 1)));
            }
            lines.push(cur);
            proof {
                assert(views_of(lines@) =~= views_of(prev) + seq![curv]);
            }
            cur = Vec::new();
            proof {
                assert(cur@ + content@.skip(i as int + 1) =~= content@.skip(i as int + 1));
                assert(spec_lines(content@) == views_of(lines@) + spec_lines(
                    cur@ + content@.skip(i as int + 1),
                ));
            }
        } else {
            let ghost curv = cur@;
            cur.push(b);
            proof {
                assert(cur@ + content@.skip(i as int + 1) =~= curv + content@.skip(i as int));
            }
        }
        i = i + 1;
    }
    proof {
        assert(cur@ + content@.skip(i as int) =~= cur@);
    }
    if cur.len() > 0 {
        proof {
            lemma_lines_no_feed(cur@);
        }
        let ghost prev = lines@;
        lines.push(cur);
        proof {
            assert(views_of(lines@) =~= views_of(prev) + seq![lines@.last()@]);
        }
    } else {
        proof {
            lemma_lines_no_feed(cur@);
            assert(views_of(lines@) + Seq::<Seq<u8>>::empty() =~= views_of(lines@));
        }
    }
    lines
}

/// Whether a byte counts as whitespace when trimming line ends.
pub fn ws_byte(b: u8) -> (r: bool)
    ensures
        r == is_ws_byte(b),
{
    b == 0x09 || b == 0x0a || b == 0x0b || b == 0x0c || b == 0x0d || b == 0x20
}

/// Copy `line` without its trailing whitespace.
pub fn trim_end(line: &Vec<u8>) -> (r: Vec<u8>)
    ensures
        r@ == spec_trim_end(line@),
{
    let mut j: usize = line.len();
    proof {
        assert(line@.take(j as int) =~= line@);
    }
    while j > 0 && ws_byte(line[j - 1])
        invariant
            j <= line@.len(),
            spec_trim_end(line@) == spec_trim_end(line@.take(j as int)),
        decreases j,
    {
        proof {
            assert(line@.take(j as int).last() == line@[j as int - 1]);
            assert(line@.take(j as int).drop_last() =~= line@.take(j as int - 1));
        }
        j = j - 1;
    }
    let mut r: Vec<u8> = Vec::new();
    let mut k: usize = 0;
    while k < j
        invariant
            k <= j <= line@.len(),
            r@ == line@.take(k as int),
        decreases j - k,
    {
        r.push(line[k]);
        proof {
            assert(line@.take(k as int).push(line@[k as int]) =~= line@.take(k as int + 1));
        }
        k = k + 1;
    }
    proof {
        if j > 0 {
            assert(!is_ws_byte(line@.take(j as int).last()));
        }
    }
    r
}

/// The canonical form of an output, as byte vectors.
pub fn normalized_lines(content: &Vec<u8>) -> (r: Vec<Vec<u8>>)
    ensures
        views_of(r@) == spec_normalized(content@),
{
    let lines = split_lines(content);
    let ghost trimmed = spec_lines(content@).map_values(|l: Seq<u8>| spec_trim_end(l));
    let mut r: Vec<Vec<u8>> = Vec::new();
    let mut i: usize = 0;
    while i < lines.len()
        invariant
            i <= lines@.len(),
            views_of(lines@) == spec_lines(content@),
            trimmed == spec_lines(content@).map_values(|l: Seq<u8>| spec_trim_end(l)),
            views_of(r@) == trimmed.take(i as int),
        decreases lines@.len() - i,
    {
        let t = trim_end(&lines[i]);
        let ghost tv = t@;
        let ghost prev = r@;
        r.push(t);
        proof {
            assert(views_of(r@) =~= views_of(prev) + seq![tv]);
            assert(trimmed[i as int] == spec_trim_end(views_of(lines@)[i as int]));
            assert(tv == trimmed[i as int]);
            assert(trimmed.take(i as int + 1) =~= trimmed.take(i as int) + seq![trimmed[i as int]]);
        }
        i = i + 1;
    }
    proof {
        assert(trimmed.take(lines@.len() as int) =~= trimmed);
    }
    while r.len() > 0 && r[r.len() - 1].len() == 0
        invariant
            spec_drop_trailing_blank(trimmed) == spec_drop_trailing_blank(views_of(r@)),
        decreases r@.len(),
    {
        proof {
            assert(views_of(r@).last().len() == 0);
            assert(views_of(r@).drop_last() =~= views_of(r@.drop_last()));
        }
        r.pop();
    }
    proof {
        if r@.len() > 0 {
            assert(views_of(r@).last().len() != 0);
        }
    }
    r
}

/// Byte-for-byte equality of two vectors.
pub fn bytes_eq(a: &Vec<u8>, b: &Vec<u8>) -> (r: bool)
    ensures
        r == (a@ == b@),
{
    if a.len() != b.len() {
        return false;
    }
    let mut i: usize = 0;
    while i < a.len()
        invariant
            i <= a@.len(),
            a@.len() == b@.len(),
            forall|j: int| 0 <= j < i ==> a@[j] == b@[j],
        decreases a@.len() - i,
    {
        if a[i] != b[i] {
            return false;
        }
        i = i + 1;
    }
    proof {
        assert(a@ =~= b@);
    }
    true
}

/// The comparison is symmetric: trailing whitespace and trailing empty lines
/// are insignificant on the produced and the expected side alike.
pub proof fn lemma_outputs_match_symmetric(a: Seq<u8>, b: Seq<u8>)
    ensures
        spec_outputs_match(a, b) == spec_outputs_match(b, a),
{
}

/// Whether the produced output matches the expected output, up to trailing
/// whitespace on each line and trailing empty lines.
pub fn outputs_match(actual: &Vec<u8>, expected: &Vec<u8>) -> (r: bool)
    ensures
        r == spec_outputs_match(actual@, expected@),
{
    let na = normalized_lines(actual);
    let nb = normalized_lines(expected);
    if na.len() != nb.len() {
        proof {
            assert(spec_normalized(actual@).len() != spec_normalized(expected@).len());
        }
        return false;
    }
    let mut i: usize = 0;
    while i < na.len()
        invariant
            i <= na@.len(),
            na@.len() == nb@.len(),
            views_of(na@) == spec_normalized(actual@),
            views_of(nb@) == spec_normalized(expected@),
            forall|j: int| 0 <= j < i ==> views_of(na@)[j] == views_of(nb@)[j],
        decreases na@.len() - i,
    {
        if !bytes_eq(&na[i], &nb[i]) {
            proof {
                assert(spec_normalized(actual@)[i as int] != spec_normalized(expected@)[i as int]);
            }
            return false;
        }
        i = i + 1;
    }
    proof {
        assert(spec_normalized(actual@) =~= spec_normalized(expected@));
    }
    true
}

} // verus!
