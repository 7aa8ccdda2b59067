//! The run configuration: which inputs to read and which counters to show.

use vstd::prelude::*;

verus! {

/// The inputs of one run and the set of requested counters.
///
/// `files` lists the input names in the order given; the name `-` stands
/// for standard input. Each `bool` requests one counter: only requested
/// counters are computed, the others stay zero.
#[derive(Debug)]
pub struct Config {
    pub files: Vec<String>,
    pub lines: bool,
    pub words: bool,
    pub chars: bool,
    pub bytes: bool,
}

/// A request that cannot be honoured, reported before any input is read.
#[derive(Debug, PartialEq, Eq, Structural, Clone, Copy)]
pub enum UsageError {
    /// The character and byte counters were requested together.
    CharsBytesConflict,
}

impl UsageError {
    /// A human-readable description of the error.
    pub fn message(&self) -> (r: String)
        ensures
            r@ == "the character count and the byte count cannot be requested together"@,
    {
        "the character count and the byte count cannot be requested together".to_owned()
    }
}

impl Config {
    /// Builds a configuration from the raw flags.
    ///
    /// Requesting characters and bytes together is a usage error and is
    /// rejected. When no counter at all is requested, the conventional
    /// default set applies: lines, words and bytes.
    pub fn from_flags(
        files: Vec<String>,
        lines: bool,
        words: bool,
        chars: bool,
        bytes: bool,
    ) -> (r: Result<Config, UsageError>)
        ensures
            (chars && bytes) <==> r is Err,
            r is Err ==> r->Err_0 == UsageError::CharsBytesConflict,
            r is Ok ==> r->Ok_0.files == files,
            r is Ok && (lines || words || chars || bytes) ==> {
                &&& r->Ok_0.lines == lines
                &&& r->Ok_0.words == words
                &&& r->Ok_0.chars == chars
                &&& r->Ok_0.bytes == bytes
            },
            r is Ok && !(lines || words || chars || bytes) ==> {
                &&& r->Ok_0.lines
                &&& r->Ok_0.words
                &&& !r->Ok_0.chars
                &&& r->Ok_0.bytes
            },
    {
        if chars && bytes {
            return Err(UsageError::CharsBytesConflict);
        }
        if !lines && !words && !chars && !bytes {
            Ok(Config { files, lines: true, words: true, chars: false, bytes: true })
        } else {
            Ok(Config { files, lines, words, chars, bytes })
        }
    }
}

} // verus!
