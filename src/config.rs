use vstd::prelude::*;
use vstd::string::*;
use crate::numbering::{Numbering, numbered, process_data, read_lines};

verus! {

/// The sources to read, in order, and the two numbering flags.
#[derive(Debug)]
pub struct Config {
    /// Paths, or `-` for standard input.
    pub files: Vec<String>,
    pub number_lines: bool,
    pub number_nonblank_lines: bool,
}

/// The numbering that each source starts in. Each flag applies only when
/// the other is off; with both set, or neither, lines are not numbered.
pub open spec fn initial_mode(number_lines: bool, number_nonblank_lines: bool) -> Numbering {
    if number_lines && !number_nonblank_lines {
        Numbering::Number(1)
    } else if number_nonblank_lines && !number_lines {
        Numbering::NumberNonblank(1)
    } else {
        Numbering::NoNumber
    }
}

/// The diagnostic for a source that could not be opened.
pub open spec fn open_failure(token: Seq<char>, cause: Seq<char>) -> Seq<char> {
    "Failed to open "@ + token + ": "@ + cause
}

impl Config {
    pub fn new(files: Vec<String>, number_lines: bool, number_nonblank_lines: bool) -> (r: Config)
        ensures
            r.files@ == files@,
            r.number_lines == number_lines,
            r.number_nonblank_lines == number_nonblank_lines,
    {
        Config { files, number_lines, number_nonblank_lines }
    }

    /// A fresh numbering for the start of one source.
    pub fn numbering(&self) -> (r: Numbering)
        ensures
            r == initial_mode(self.number_lines, self.number_nonblank_lines),
    {
        if self.number_lines && !self.number_nonblank_lines {
            Numbering::new_number()
        } else if self.number_nonblank_lines && !self.number_lines {
            Numbering::new_number_nonblank()
        } else {
            Numbering::new_no_number()
        }
    }

    /// What one source contributes: where it opened (`Ok` with the results
    /// of reading its lines), its lines rendered from a fresh numbering; where
    /// it did not (`Err` with the cause), the diagnostic naming `token`.
    pub fn render_source(&self, token: &str, opened: Result<Vec<Option<String>>, String>) -> (r:
        Result<Vec<String>, String>)
        requires
            opened matches Result::Ok(reads) ==> initial_mode(
                self.number_lines,
                self.number_nonblank_lines,
            ).has_room(reads@.len()),
        ensures
            match (opened, r) {
                (Result::Ok(reads), Result::Ok(out)) => out@.map_values(|s: String| s@) == numbered(
                    initial_mode(self.number_lines, self.number_nonblank_lines),
                    read_lines(reads@),
                ),
                (Result::Err(cause), Result::Err(msg)) => msg@ == open_failure(token@, cause@),
                _ => false,
            },
    {
        match opened {
            Result::Ok(reads) => Result::Ok(process_data(reads, self.numbering())),
            Result::Err(cause) => {
                let mut msg = String::from_str("Failed to open ");
                msg.append(token);
                msg.append(": ");
                msg.append(cause.as_str());
                Result::Err(msg)
            },
        }
    }
}

} // verus!
