use vstd::prelude::*;
use crate::error::{file_error, open_failure, read_error, read_failure, GrepError};
use crate::text::{chars_of, contains, lines_of, occurs_in, split_lines, views};

verus! {

/// What `str::to_lowercase` makes of a text.
pub uninterp spec fn lower_of(s: Seq<char>) -> Seq<char>;

/// Relies on `str::to_lowercase`: its result depends on the characters of
/// the text alone, and the empty text stays empty.
#[verifier::external_body]
fn lowercase(s: &str) -> (r: String)
    ensures
        r@ == lower_of(s@),
        s@.len() == 0 ==> r@.len() == 0,
{
    s.to_lowercase()
}

/// Relies on `String`'s `FromIterator<&char>`: collecting characters keeps
/// them, in order.
#[verifier::external_body]
fn string_of(cs: &Vec<char>) -> (r: String)
    ensures
        r@ == cs@,
{
    cs.iter().collect()
}

/// The views of a sequence of strings.
pub open spec fn string_views(v: Seq<String>) -> Seq<Seq<char>> {
    v.map_values(|s: String| s@)
}

/// The pattern that lines are searched for. In case-insensitive mode only
/// the pattern is lowercased; lines are compared as they stand, so such a
/// search finds the lowercased pattern in a line, not any spelling of it.
pub open spec fn pattern_of(what: Seq<char>, ignore_case: bool) -> Seq<char> {
    if ignore_case {
        lower_of(what)
    } else {
        what
    }
}

/// The lines of `lines` that hold `pat`, in their order.
pub open spec fn selected(lines: Seq<Seq<char>>, pat: Seq<char>) -> Seq<Seq<char>> {
    lines.filter(|l: Seq<char>| occurs_in(l, pat))
}

/// The lines of `content` that a search for `what` reports, in order.
pub open spec fn matching_lines(what: Seq<char>, content: Seq<char>, ignore_case: bool) -> Seq<
    Seq<char>,
> {
    selected(lines_of(content), pattern_of(what, ignore_case))
}

/// The lines of `content` that hold `pat`, in order, each as it stands.
pub fn select_lines(content: &str, pat: &str) -> (r: Vec<String>)
    ensures
        string_views(r@) == selected(lines_of(content@), pat@),
{
    let text = chars_of(content);
    let lines = split_lines(&text);
    let pat_chars = chars_of(pat);
    let ghost all = views(lines@);
    let ghost pred = |l: Seq<char>| occurs_in(l, pat@);
    let mut out: Vec<String> = Vec::new();
    for i in 0..lines.len()
        invariant
            all == views(lines@),
            pred == (|l: Seq<char>| occurs_in(l, pat@)),
            pat_chars@ == pat@,
            string_views(out@) == all.take(i as int).filter(pred),
    {
        let line = &lines[i];
        proof {
            assert(all.take(i + 1).drop_last() =~= all.take(i as int));
            assert(all.take(i + 1).last() == line@);
            reveal(Seq::filter);
        }
        if contains(line, &pat_chars) {
            let s = string_of(line);
            proof {
                assert(string_views(out@.push(s)) =~= string_views(out@).push(s@));
            }
            out.push(s);
        }
    }
    assert(all.take(lines.len() as int) =~= all);
    out
}

/// Searches `content` for `what`: the lines that hold the pattern, in
/// order, each as it stands in `content`. With `ignore_case` the pattern is
/// lowercased first. An empty pattern selects every line.
pub fn search(what: &str, content: &str, ignore_case: bool) -> (r: Vec<String>)
    ensures
        string_views(r@) == matching_lines(what@, content@, ignore_case),
        what@.len() == 0 ==> string_views(r@) == lines_of(content@),
{
    let r = if ignore_case {
        let pat = lowercase(what);
        select_lines(content, pat.as_str())
    } else {
        select_lines(content, what)
    };
    proof {
        if what@.len() == 0 {
            assert(pattern_of(what@, ignore_case) =~= Seq::<char>::empty());
            lemma_empty_pattern_selects_every_line(content@);
        }
    }
    r
}

/// Every line holds the empty pattern, so a search for it reports every
/// line of the text, the empty last line after a final newline included.
pub proof fn lemma_empty_pattern_selects_every_line(content: Seq<char>)
    ensures
        selected(lines_of(content), Seq::empty()) == lines_of(content),
{
    let lines = lines_of(content);
    let pred = |l: Seq<char>| occurs_in(l, Seq::empty());
    assert forall|l: Seq<char>| #[trigger] pred(l) by {
        assert(l.subrange(0, 0) =~= Seq::<char>::empty());
        assert(crate::text::occurs_at(l, Seq::empty(), 0));
    }
    lemma_filter_keeps_all(lines, pred);
}

proof fn lemma_filter_keeps_all(s: Seq<Seq<char>>, pred: spec_fn(Seq<char>) -> bool)
    requires
        forall|l: Seq<char>| #[trigger] pred(l),
    ensures
        s.filter(pred) == s,
    decreases s.len(),
{
    reveal(Seq::filter);
    if s.len() > 0 {
        lemma_filter_keeps_all(s.drop_last(), pred);
        assert(s.drop_last().push(s.last()) =~= s);
    }
}

/// What came of reading a source: its whole text, or the reason why it
/// could not be opened, or why it was opened but could not be read.
pub enum ReadOutcome {
    Content(String),
    OpenFailed(String),
    ReadFailed(String),
}

/// Makes a search of the source `file` once reading it has given `source`:
/// the lines that hold the pattern, in order, or the error that ends the
/// search. A failure to open gives a `File` error and a failure to read a
/// `Read` error; either way no line is reported.
pub fn grep_source(what: &str, file: &str, source: ReadOutcome, ignore_case: bool) -> (r: Result<
    Vec<String>,
    GrepError,
>)
    ensures
        match source {
            ReadOutcome::Content(c) => r is Ok && string_views(r->Ok_0@) == matching_lines(
                what@,
                c@,
                ignore_case,
            ),
            ReadOutcome::OpenFailed(cause) => r is Err && r->Err_0 is File && r->Err_0.text()
                == open_failure(file@, cause@),
            ReadOutcome::ReadFailed(cause) => r is Err && r->Err_0 is Read && r->Err_0.text()
                == read_failure(cause@),
        },
{
    match source {
        ReadOutcome::Content(c) => Ok(search(what, c.as_str(), ignore_case)),
        ReadOutcome::OpenFailed(cause) => Err(file_error(file, cause.as_str())),
        ReadOutcome::ReadFailed(cause) => Err(read_error(cause.as_str())),
    }
}

/// A search depends on its pattern, text and mode alone: repeating it on
/// the same ones reports the same lines, and so the same answer to whether
/// any line matched.
pub proof fn lemma_search_repeatable(
    what: Seq<char>,
    content: Seq<char>,
    ignore_case: bool,
    first: Seq<Seq<char>>,
    second: Seq<Seq<char>>,
)
    requires
        first == matching_lines(what, content, ignore_case),
        second == matching_lines(what, content, ignore_case),
    ensures
        first == second,
        (first.len() > 0) == (second.len() > 0),
{
}

} // verus!
