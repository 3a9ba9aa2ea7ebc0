//! The exclude list: one pattern per line of a text file.
use vstd::prelude::*;

verus! {

/// The lines of a text as `str::lines` yields them: split at each line
/// feed, a carriage return before it dropped with it, and no last empty
/// line for a text that ends in a line ending.
pub uninterp spec fn text_lines(text: Seq<char>) -> Seq<Seq<char>>;

/// `str::lines`: the lines of the text, in order, without their endings.
#[verifier::external_body]
fn lines_of(text: &str) -> (lines: Vec<String>)
    ensures
        lines.deep_view() == text_lines(text@),
{
    text.lines().map(String::from).collect()
}

/// What came of reading the exclude file.
#[derive(Debug)]
pub enum FileRead {
    /// The file was read; this is its text.
    Contents(String),
    /// There is no such file.
    NotFound,
    /// The file is there and could not be read as text; the reason is kept.
    Failed(String),
}

/// The exclude file could not be read.
#[derive(Debug)]
pub struct LoadError {
    /// The reason, as the reader gave it.
    pub reason: String,
}

/// Whether `outcome` is the exclude list that a read amounts to: the lines
/// of the text; no pattern at all where there is no file; and an error,
/// with the reader's reason, where the file could not be read.
pub open spec fn loads_as(read: FileRead, outcome: Result<Vec<String>, LoadError>) -> bool {
    match read {
        FileRead::Contents(text) => outcome matches Ok(patterns) && patterns.deep_view()
            == text_lines(text@),
        FileRead::NotFound => outcome matches Ok(patterns) && patterns.deep_view() == Seq::<
            Seq<char>,
        >::empty(),
        FileRead::Failed(reason) => outcome matches Err(error) && error.reason@ == reason@,
    }
}

/// Makes the exclude list of what reading the exclude file gave.
pub fn load_excludes(read: FileRead) -> (outcome: Result<Vec<String>, LoadError>)
    ensures
        loads_as(read, outcome),
{
    match read {
        FileRead::Contents(text) => Ok(lines_of(text.as_str())),
        FileRead::NotFound => {
            let patterns: Vec<String> = Vec::new();
            assert(patterns.deep_view() =~= Seq::<Seq<char>>::empty());
            Ok(patterns)
        },
        FileRead::Failed(reason) => Err(LoadError { reason }),
    }
}

} // verus!
