use vstd::prelude::*;
use vstd::string::*;
use crate::format::{format_numbered, prefix};

verus! {

/// How the lines of one source are numbered. The counter is the number
/// that the next numbered line receives.
#[derive(PartialEq, Eq, Structural, Debug, Clone, Copy)]
pub enum Numbering {
    /// Every line is numbered, blank ones too.
    Number(u32),
    /// Only lines that are not blank are numbered.
    NumberNonblank(u32),
    /// Lines pass through unchanged.
    NoNumber,
}

/// A rendered line, with the numbering that the next line sees.
pub type Line = (String, Numbering);

impl Numbering {
    /// Whether `line`, seen in this state, takes a number.
    pub open spec fn numbers(self, line: Seq<char>) -> bool {
        match self {
            Numbering::NoNumber => false,
            Numbering::Number(_) => true,
            Numbering::NumberNonblank(_) => line.len() > 0,
        }
    }

    /// The counter, or zero where nothing is counted.
    pub open spec fn counter(self) -> nat {
        match self {
            Numbering::NoNumber => 0,
            Numbering::Number(n) => n as nat,
            Numbering::NumberNonblank(n) => n as nat,
        }
    }

    /// The same mode with the counter replaced.
    pub open spec fn with_counter(self, n: nat) -> Numbering {
        match self {
            Numbering::NoNumber => Numbering::NoNumber,
            Numbering::Number(_) => Numbering::Number(n as u32),
            Numbering::NumberNonblank(_) => Numbering::NumberNonblank(n as u32),
        }
    }

    /// Whether `k` more lines can be numbered without the counter leaving `u32`.
    pub open spec fn has_room(self, k: nat) -> bool {
        self is NoNumber || self.counter() + k <= u32::MAX
    }

    /// The state after `line`.
    pub open spec fn next(self, line: Seq<char>) -> Numbering {
        if self.numbers(line) {
            self.with_counter(self.counter() + 1)
        } else {
            self
        }
    }

    /// What `line` becomes in this state.
    pub open spec fn rendered(self, line: Seq<char>) -> Seq<char> {
        if self.numbers(line) {
            prefix(self.counter()) + line
        } else {
            line
        }
    }

    /// The state that follows `line`: the counter moves on by one exactly
    /// when the line takes a number.
    pub fn increment(self, line: String) -> (r: Self)
        requires
            self.numbers(line@) ==> self.has_room(1),
        ensures
            r == self.next(line@),
    {
        match self {
            Numbering::NoNumber => self,
            Numbering::Number(line_number) => Numbering::Number(line_number + 1),
            Numbering::NumberNonblank(line_number) => {
                if line.as_str().is_empty() {
                    self
                } else {
                    Numbering::NumberNonblank(line_number + 1)
                }
            },
        }
    }

    pub fn new_number() -> (r: Self)
        ensures
            r == Numbering::Number(1),
    {
        Numbering::Number(1)
    }

    pub fn new_number_nonblank() -> (r: Self)
        ensures
            r == Numbering::NumberNonblank(1),
    {
        Numbering::NumberNonblank(1)
    }

    pub fn new_no_number() -> (r: Self)
        ensures
            r == Numbering::NoNumber,
    {
        Numbering::NoNumber
    }
}

/// The lines that were read: the failed reads are left out.
pub open spec fn read_lines(reads: Seq<Option<String>>) -> Seq<Seq<char>>
    decreases reads.len(),
{
    if reads.len() == 0 {
        Seq::empty()
    } else {
        let before = read_lines(reads.drop_last());
        match reads.last() {
            Option::Some(line) => before.push(line@),
            Option::None => before,
        }
    }
}

/// The state after the lines, started in `mode`.
pub open spec fn state_after(mode: Numbering, lines: Seq<Seq<char>>) -> Numbering
    decreases lines.len(),
{
    if lines.len() == 0 {
        mode
    } else {
        state_after(mode, lines.drop_last()).next(lines.last())
    }
}

/// The lines as rendered one after another, started in `mode`.
pub open spec fn numbered(mode: Numbering, lines: Seq<Seq<char>>) -> Seq<Seq<char>>
    decreases lines.len(),
{
    if lines.len() == 0 {
        Seq::empty()
    } else {
        let before = lines.drop_last();
        numbered(mode, before).push(state_after(mode, before).rendered(lines.last()))
    }
}

/// Each line moves the counter by at most one.
pub proof fn lemma_room_after(mode: Numbering, lines: Seq<Seq<char>>, k: nat)
    requires
        mode.has_room(lines.len() + k),
    ensures
        state_after(mode, lines).has_room(k),
        state_after(mode, lines).counter() >= mode.counter(),
        state_after(mode, lines) is NoNumber <==> mode is NoNumber,
        state_after(mode, lines) is Number <==> mode is Number,
    decreases lines.len(),
{
    if lines.len() > 0 {
        lemma_room_after(mode, lines.drop_last(), k + 1);
    }
}

/// Renders `line` in the state `numbering` and gives the state that
/// follows it.
pub fn number_line(line: String, numbering: Numbering) -> (r: Line)
    requires
        numbering.numbers(line@) ==> numbering.has_room(1),
    ensures
        r.0@ == numbering.rendered(line@),
        r.1 == numbering.next(line@),
{
    match numbering {
        Numbering::NoNumber => (line, numbering),
        Numbering::Number(line_number) => {
            let l = format_numbered(line_number, line.as_str());
            (l, numbering.increment(line))
        },
        Numbering::NumberNonblank(line_number) => {
            if line.as_str().is_empty() {
                (line, numbering)
            } else {
                let l = format_numbered(line_number, line.as_str());
                (l, numbering.increment(line))
            }
        },
    }
}

/// Renders the lines of one source in order, starting in `numbering`.
/// A failed read yields nothing and leaves the counter as it was.
pub fn process_data(reads: Vec<Option<String>>, numbering: Numbering) -> (r: Vec<String>)
    requires
        numbering.has_room(reads@.len()),
    ensures
        r@.map_values(|s: String| s@) == numbered(numbering, read_lines(reads@)),
{
    let mut ret_lines: Vec<String> = Vec::new();
    let mut count = numbering;
    let mut i: usize = 0;
    while i < reads.len()
        invariant
            i <= reads@.len(),
            numbering.has_room(reads@.len()),
            read_lines(reads@.take(i as int)).len() <= i,
            count == state_after(numbering, read_lines(reads@.take(i as int))),
            ret_lines@.map_values(|s: String| s@) == numbered(
                numbering,
                read_lines(reads@.take(i as int)),
            ),
        decreases reads@.len() - i,
    {
        let ghost done = read_lines(reads@.take(i as int));
        proof {
            lemma_room_after(numbering, done, (reads@.len() - done.len()) as nat);
            assert(reads@.take(i + 1).drop_last() =~= reads@.take(i as int));
        }
        match &reads[i] {
            Option::Some(line) => {
                let (l, c) = number_line(line.clone(), count);
                count = c;
                ret_lines.push(l);
                proof {
                    assert(read_lines(reads@.take(i + 1)) == done.push(line@));
                    assert(done.push(line@).drop_last() =~= done);
                    assert(ret_lines@.map_values(|s: String| s@) =~= numbered(
                        numbering,
                        done.push(line@),
                    ));
                }
            },
            Option::None => {},
        }
        i = i + 1;
    }
    proof {
        assert(reads@.take(i as int) =~= reads@);
    }
    ret_lines
}

} // verus!
