use vstd::prelude::*;
use crate::error::GrepError;

verus! {

/// Exit code: at least one line matched.
pub const EXIT_FOUND: u8 = 0;

/// Exit code: no line matched.
pub const EXIT_NOT_FOUND: u8 = 1;

/// Exit code: the search could not be made.
pub const EXIT_ERROR: u8 = 2;

/// Exit code: the arguments were not understood, or help was asked for.
pub const EXIT_USAGE: u8 = 3;

/// The exit code that reports the outcome of a search.
pub fn exit_code(outcome: &Result<bool, GrepError>) -> (r: u8)
    ensures
        r == match outcome {
            Ok(true) => EXIT_FOUND,
            Ok(false) => EXIT_NOT_FOUND,
            Err(_) => EXIT_ERROR,
        },
{
    match outcome {
        Ok(true) => EXIT_FOUND,
        Ok(false) => EXIT_NOT_FOUND,
        Err(_) => EXIT_ERROR,
    }
}

/// The name of a source that stands for standard input.
pub open spec fn stdin_name() -> Seq<char> {
    seq!['-']
}

/// Whether the source `source` names standard input rather than a file.
pub fn reads_stdin(source: &str) -> (r: bool)
    ensures
        r == (source@ == stdin_name()),
{
    if source.unicode_len() != 1 {
        return false;
    }
    let c = source.get_char(0);
    if c == '-' {
        assert(source@ =~= stdin_name());
    }
    c == '-'
}

/// The pattern and the source named by the positional arguments: with one
/// argument the source is standard input, with two it is the second one;
/// any other number is a usage error.
pub fn operands(free: &Vec<String>) -> (r: Option<(String, String)>)
    ensures
        free.len() == 1 ==> (r matches Some((p, s)) && p@ == free[0]@ && s@ == stdin_name()),
        free.len() == 2 ==> (r matches Some((p, s)) && p@ == free[0]@ && s@ == free[1]@),
        free.len() != 1 && free.len() != 2 ==> r is None,
{
    if free.len() == 1 {
        proof {
            reveal_strlit("-");
        }
        let stdin = "-".to_owned();
        assert(stdin@ =~= stdin_name());
        Some((free[0].clone(), stdin))
    } else if free.len() == 2 {
        Some((free[0].clone(), free[1].clone()))
    } else {
        None
    }
}

} // verus!
