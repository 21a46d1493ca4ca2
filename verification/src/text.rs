//! Text primitives shared by the synthesizers and the emitter.
use vstd::prelude::*;
use vstd::string::*;

verus! {

/// Every occurrence of the non-empty pattern `from` in `s` replaced by `to`:
/// the text is read from the left, and after a match the reading goes on
/// behind it, so no two matches overlap. For an empty pattern, which no
/// caller replaces, this is `s` itself.
pub open spec fn replace_all(s: Seq<char>, from: Seq<char>, to: Seq<char>) -> Seq<char>
    decreases s.len(),
{
    if from.len() == 0 || s.len() < from.len() {
        s
    } else if s.subrange(0, from.len() as int) == from {
        to + replace_all(s.subrange(from.len() as int, s.len() as int), from, to)
    } else {
        seq![s[0]] + replace_all(s.subrange(1, s.len() as int), from, to)
    }
}

/// Number of characters before the first line feed of `s`, or the length of
/// `s` where it holds none.
pub open spec fn line_end(s: Seq<char>) -> nat
    decreases s.len(),
{
    if s.len() == 0 || s[0] == '\n' {
        0
    } else {
        1 + line_end(s.drop_first())
    }
}

/// A line without the carriage return that stood before its line feed.
pub open spec fn without_cr(line: Seq<char>) -> Seq<char> {
    if line.len() > 0 && line.last() == '\r' {
        line.drop_last()
    } else {
        line
    }
}

/// The lines of a text: split after every line feed, each line without its
/// line feed and without a carriage return just before it. A last line that
/// no line feed ends is kept whole; an empty text has no line.
pub open spec fn lines_of(s: Seq<char>) -> Seq<Seq<char>>
    decreases s.len(),
{
    if s.len() == 0 {
        Seq::empty()
    } else {
        let n = line_end(s) as int;
        if n >= s.len() {
            seq![s]
        } else {
            seq![without_cr(s.subrange(0, n))] + lines_of(s.subrange(n + 1, s.len() as int))
        }
    }
}

/// The parts in order, with `sep` between each two neighbours.
pub open spec fn join(parts: Seq<Seq<char>>, sep: Seq<char>) -> Seq<char>
    decreases parts.len(),
{
    if parts.len() == 0 {
        Seq::empty()
    } else if parts.len() == 1 {
        parts[0]
    } else {
        join(parts.drop_last(), sep) + sep + parts.last()
    }
}

/// Each line between `prefix` and `suffix`.
pub open spec fn framed(lines: Seq<Seq<char>>, prefix: Seq<char>, suffix: Seq<char>) -> Seq<
    Seq<char>,
> {
    Seq::new(lines.len(), |i: int| prefix + lines[i] + suffix)
}

/// The lines of `s`, each between `prefix` and `suffix`, joined by line feeds.
pub open spec fn framed_lines(s: Seq<char>, prefix: Seq<char>, suffix: Seq<char>) -> Seq<char> {
    join(framed(lines_of(s), prefix, suffix), seq!['\n'])
}

/// Replaces every occurrence of a non-empty pattern through `str::replace`,
/// which scans from the left and never lets two matches overlap.
#[verifier::external_body]
pub(crate) fn replace(s: &str, from: &str, to: &str) -> (out: String)
    requires
        from@.len() > 0,
    ensures
        out@ == replace_all(s@, from@, to@),
{
    s.replace(from, to)
}

/// Splits a text through `str::lines`: a line ends at a line feed, a carriage
/// return just before that line feed is dropped with it, and a last line
/// needs no line feed.
#[verifier::external_body]
pub(crate) fn lines(s: &str) -> (out: Vec<String>)
    ensures
        out.deep_view() == lines_of(s@),
{
    s.lines().map(String::from).collect()
}

/// `a` followed by `b`.
pub fn append(a: &str, b: &str) -> (out: String)
    ensures
        out@ == a@ + b@,
{
    let mut out = String::from_str(a);
    out.append(b);
    out
}

/// Joins `parts` with `sep` between neighbours.
pub fn join_with(parts: &Vec<String>, sep: &str) -> (out: String)
    ensures
        out@ == join(parts.deep_view(), sep@),
{
    let mut out = String::new();
    let mut i: usize = 0;
    while i < parts.len()
        invariant
            i <= parts.len(),
            out@ == join(parts.deep_view().take(i as int), sep@),
        decreases parts.len() - i,
    {
        proof {
            let next = parts.deep_view().take(i + 1);
            assert(next.drop_last() =~= parts.deep_view().take(i as int));
            assert(next.last() == parts[i as int]@);
            if i == 0 {
                assert(out@ + parts[0]@ =~= parts[0]@);
            }
        }
        if i > 0 {
            out.append(sep);
        }
        out.append(parts[i].as_str());
        i += 1;
    }
    proof {
        assert(parts.deep_view().take(parts.len() as int) =~= parts.deep_view());
    }
    out
}

/// The lines of `s`, each between `prefix` and `suffix`, joined by line feeds.
pub fn frame_lines(s: &str, prefix: &str, suffix: &str) -> (out: String)
    ensures
        out@ == framed_lines(s@, prefix@, suffix@),
{
    let all = lines(s);
    let mut parts: Vec<String> = Vec::new();
    let mut i: usize = 0;
    while i < all.len()
        invariant
            i <= all.len(),
            parts.len() == i,
            parts.deep_view() == framed(all.deep_view().take(i as int), prefix@, suffix@),
        decreases all.len() - i,
    {
        let mut line = String::from_str(prefix);
        line.append(all[i].as_str());
        line.append(suffix);
        let ghost before = parts@;
        parts.push(line);
        proof {
            let want = framed(all.deep_view().take(i + 1), prefix@, suffix@);
            assert(parts.deep_view().len() == want.len());
            assert forall|k: int| 0 <= k < want.len() implies parts.deep_view()[k] == want[k] by {
                if k < i {
                    assert(parts@[k] == before[k]);
                    assert(framed(all.deep_view().take(i as int), prefix@, suffix@)[k]
                        == want[k]);
                }
            }
            assert(parts.deep_view() =~= want);
        }
        i += 1;
    }
    proof {
        assert(all.deep_view().take(all.len() as int) =~= all.deep_view());
        reveal_strlit("\n");
        assert("\n"@ =~= seq!['\n']);
    }
    join_with(&parts, "\n")
}

} // verus!
