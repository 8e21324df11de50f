use vstd::prelude::*;

verus! {

/// Why a search could not be made. Each kind carries a description for
/// people: the source that could not be opened and why, or why its text
/// could not be read.
#[derive(Debug, Clone, PartialEq, Eq)]
pub enum GrepError {
    Read(String),
    File(String),
}

impl GrepError {
    /// The description that the error carries.
    pub open spec fn text(&self) -> Seq<char> {
        match self {
            GrepError::Read(s) => s@,
            GrepError::File(s) => s@,
        }
    }

    /// The description that the error carries, as it is shown to a user.
    pub fn message(&self) -> (r: String)
        ensures
            r@ == self.text(),
    {
        match self {
            GrepError::Read(s) => s.clone(),
            GrepError::File(s) => s.clone(),
        }
    }
}

/// The description of a source that could not be opened.
pub open spec fn open_failure(file: Seq<char>, cause: Seq<char>) -> Seq<char> {
    "couldn't open "@ + file + ": "@ + cause
}

/// The description of a source whose text could not be read.
pub open spec fn read_failure(cause: Seq<char>) -> Seq<char> {
    "couldn't read: "@ + cause
}

/// The error for a source `file` that could not be opened, for `cause`.
pub fn file_error(file: &str, cause: &str) -> (r: GrepError)
    ensures
        r is File,
        r.text() == open_failure(file@, cause@),
{
    let mut m = "couldn't open ".to_owned();
    m.append(file);
    m.append(": ");
    m.append(cause);
    proof {
        reveal_strlit("couldn't open ");
        reveal_strlit(": ");
    }
    GrepError::File(m)
}

/// The error for a source whose text could not be read, for `cause`.
pub fn read_error(cause: &str) -> (r: GrepError)
    ensures
        r is Read,
        r.text() == read_failure(cause@),
{
    let mut m = "couldn't read: ".to_owned();
    m.append(cause);
    proof {
        reveal_strlit("couldn't read: ");
    }
    GrepError::Read(m)
}

} // verus!
