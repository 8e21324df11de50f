use vstd::prelude::*;

verus! {

/// The lines of `s`: the pieces between newline characters, in order.
/// A text that ends in a newline has an empty last line, and the empty
/// text is one empty line.
pub open spec fn lines_of(s: Seq<char>) -> Seq<Seq<char>>
    decreases s.len(),
{
    if s.len() == 0 {
        seq![Seq::empty()]
    } else {
        let prev = lines_of(s.drop_last());
        if s.last() == '\n' {
            prev.push(Seq::empty())
        } else {
            prev.update(prev.len() - 1, prev.last().push(s.last()))
        }
    }
}

/// `pat` stands in `line` from position `i` on.
pub open spec fn occurs_at(line: Seq<char>, pat: Seq<char>, i: int) -> bool {
    0 <= i && i + pat.len() <= line.len() && line.subrange(i, i + pat.len()) == pat
}

/// `pat` stands somewhere in `line` as a contiguous piece.
pub open spec fn occurs_in(line: Seq<char>, pat: Seq<char>) -> bool {
    exists|i: int| occurs_at(line, pat, i)
}

/// The views of a sequence of character vectors.
pub open spec fn views(v: Seq<Vec<char>>) -> Seq<Seq<char>> {
    v.map_values(|l: Vec<char>| l@)
}

/// A text has at least one line.
pub proof fn lemma_lines_nonempty(s: Seq<char>)
    ensures
        lines_of(s).len() >= 1,
    decreases s.len(),
{
    if s.len() > 0 {
        lemma_lines_nonempty(s.drop_last());
    }
}

/// The characters of `s`, in order.
pub fn chars_of(s: &str) -> (r: Vec<char>)
    ensures
        r@ == s@,
{
    let mut r: Vec<char> = Vec::new();
    for c in it: s.chars()
        invariant
            it.seq() == s@,
            r@ == it.seq().take(it.index() as int),
    {
        r.push(c);
    }
    r
}

/// Splits `text` at each newline character.
pub fn split_lines(text: &Vec<char>) -> (r: Vec<Vec<char>>)
    ensures
        views(r@) == lines_of(text@),
{
    let mut done: Vec<Vec<char>> = Vec::new();
    let mut cur: Vec<char> = Vec::new();
    for i in 0..text.len()
        invariant
            views(done@).push(cur@) == lines_of(text@.take(i as int)),
    {
        let c = text[i];
        let ghost before = text@.take(i as int);
        proof {
            assert(text@.take(i + 1).drop_last() =~= before);
            lemma_lines_nonempty(before);
        }
        if c == '\n' {
            proof {
                assert(views(done@.push(cur)) =~= views(done@).push(cur@));
            }
            done.push(cur);
            cur = Vec::new();
            assert(views(done@).push(cur@) =~= lines_of(text@.take(i + 1)));
        } else {
            cur.push(c);
            assert(views(done@).push(cur@) =~= lines_of(text@.take(i + 1)));
        }
    }
    proof {
        assert(text@.take(text.len() as int) =~= text@);
        assert(views(done@.push(cur)) =~= views(done@).push(cur@));
    }
    done.push(cur);
    done
}

/// Whether `pat` stands in `line` from position `i` on.
fn matches_at(line: &Vec<char>, pat: &Vec<char>, i: usize) -> (r: bool)
    requires
        i + pat.len() <= line.len(),
    ensures
        r == occurs_at(line@, pat@, i as int),
{
    let mut j: usize = 0;
    while j < pat.len()
        invariant
            j <= pat.len(),
            i + pat.len() <= line.len(),
            forall|k: int| 0 <= k < j ==> line@[i + k] == pat@[k],
        decreases pat.len() - j,
    {
        if line[i + j] != pat[j] {
            assert(line@.subrange(i as int, i + pat.len())[j as int] != pat@[j as int]);
            return false;
        }
        j = j + 1;
    }
    assert(line@.subrange(i as int, i + pat.len()) =~= pat@);
    true
}

/// Whether `pat` stands somewhere in `line`.
pub fn contains(line: &Vec<char>, pat: &Vec<char>) -> (r: bool)
    ensures
        r == occurs_in(line@, pat@),
{
    if pat.len() > line.len() {
        return false;
    }
    let last = line.len() - pat.len();
    let mut i: usize = 0;
    loop
        invariant
            i <= last,
            last + pat.len() == line.len(),
            forall|k: int| 0 <= k < i ==> !occurs_at(line@, pat@, k),
        decreases last - i,
    {
        if matches_at(line, pat, i) {
            return true;
        }
        if i == last {
            return false;
        }
        i = i + 1;
    }
}

} // verus!
