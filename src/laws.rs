use vstd::prelude::*;
use crate::config::initial_mode;
use crate::format::prefix;
use crate::numbering::{Numbering, numbered, read_lines, state_after};

verus! {

/// How many of the lines are not blank.
pub open spec fn nonblank_count(lines: Seq<Seq<char>>) -> nat
    decreases lines.len(),
{
    if lines.len() == 0 {
        0
    } else {
        nonblank_count(lines.drop_last()) + if lines.last().len() > 0 {
            1nat
        } else {
            0nat
        }
    }
}

proof fn lemma_numbered_len(mode: Numbering, lines: Seq<Seq<char>>)
    ensures
        numbered(mode, lines).len() == lines.len(),
    decreases lines.len(),
{
    if lines.len() > 0 {
        lemma_numbered_len(mode, lines.drop_last());
    }
}

/// Without numbering, every line comes out exactly as it went in.
pub proof fn lemma_no_number_unchanged(lines: Seq<Seq<char>>)
    ensures
        state_after(Numbering::NoNumber, lines) == Numbering::NoNumber,
        numbered(Numbering::NoNumber, lines) == lines,
    decreases lines.len(),
{
    if lines.len() > 0 {
        lemma_no_number_unchanged(lines.drop_last());
        assert(lines.drop_last().push(lines.last()) =~= lines);
    }
}

/// Numbering every line from 1: the line at index `i`, blank or not,
/// carries the number `i + 1`.
pub proof fn lemma_number_every_line(lines: Seq<Seq<char>>)
    requires
        lines.len() < u32::MAX,
    ensures
        state_after(Numbering::Number(1), lines) == Numbering::Number((1 + lines.len()) as u32),
        numbered(Numbering::Number(1), lines).len() == lines.len(),
        forall|i: int|
            0 <= i < lines.len() ==> #[trigger] numbered(Numbering::Number(1), lines)[i] == prefix(
                (i + 1) as nat,
            ) + lines[i],
    decreases lines.len(),
{
    lemma_numbered_len(Numbering::Number(1), lines);
    if lines.len() > 0 {
        let before = lines.drop_last();
        lemma_number_every_line(before);
        assert forall|i: int| 0 <= i < lines.len() implies #[trigger] numbered(
            Numbering::Number(1),
            lines,
        )[i] == prefix((i + 1) as nat) + lines[i] by {
            if i < before.len() {
                assert(numbered(Numbering::Number(1), before)[i] == prefix((i + 1) as nat)
                    + before[i]);
            }
        }
    }
}

/// Numbering the lines that are not blank, from 1: a blank line comes out
/// empty and takes no number; any other line carries one more than the
/// number of non-blank lines before it.
pub proof fn lemma_number_nonblank_lines(lines: Seq<Seq<char>>)
    requires
        lines.len() < u32::MAX,
    ensures
        state_after(Numbering::NumberNonblank(1), lines) == Numbering::NumberNonblank(
            (1 + nonblank_count(lines)) as u32,
        ),
        nonblank_count(lines) <= lines.len(),
        numbered(Numbering::NumberNonblank(1), lines).len() == lines.len(),
        forall|i: int|
            0 <= i < lines.len() ==> #[trigger] numbered(Numbering::NumberNonblank(1), lines)[i]
                == if lines[i].len() == 0 {
                lines[i]
            } else {
                prefix(1 + nonblank_count(lines.take(i))) + lines[i]
            },
    decreases lines.len(),
{
    let m = Numbering::NumberNonblank(1);
    lemma_numbered_len(m, lines);
    if lines.len() > 0 {
        let before = lines.drop_last();
        lemma_number_nonblank_lines(before);
        assert(lines.take(before.len() as int) =~= before);
        assert forall|i: int| 0 <= i < lines.len() implies #[trigger] numbered(m, lines)[i]
            == if lines[i].len() == 0 {
            lines[i]
        } else {
            prefix(1 + nonblank_count(lines.take(i))) + lines[i]
        } by {
            if i < before.len() {
                assert(before.take(i) =~= lines.take(i));
                assert(numbered(m, before)[i] == if before[i].len() == 0 {
                    before[i]
                } else {
                    prefix(1 + nonblank_count(before.take(i))) + before[i]
                });
            }
        }
    }
}

/// Rendering is a function of the flags and of the lines read: two runs
/// over the same lines with the same flags give the same output.
pub proof fn lemma_same_input_same_output(
    number_lines: bool,
    number_nonblank_lines: bool,
    first: Seq<Option<String>>,
    second: Seq<Option<String>>,
)
    requires
        read_lines(first) == read_lines(second),
    ensures
        numbered(initial_mode(number_lines, number_nonblank_lines), read_lines(first)) == numbered(
            initial_mode(number_lines, number_nonblank_lines),
            read_lines(second),
        ),
{
}

} // verus!
