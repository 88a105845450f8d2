use vstd::prelude::*;
use vstd::string::*;

verus! {

/// Width of the field in which a line number is right-justified.
pub const FIELD_WIDTH: usize = 6;

/// The character of a decimal digit.
pub open spec fn digit_char(d: nat) -> char {
    if d == 0 {
        '0'
    } else if d == 1 {
        '1'
    } else if d == 2 {
        '2'
    } else if d == 3 {
        '3'
    } else if d == 4 {
        '4'
    } else if d == 5 {
        '5'
    } else if d == 6 {
        '6'
    } else if d == 7 {
        '7'
    } else if d == 8 {
        '8'
    } else {
        '9'
    }
}

/// The decimal digits of `n`, most significant first, without leading zeros.
pub open spec fn decimal(n: nat) -> Seq<char>
    decreases n,
{
    if n < 10 {
        seq![digit_char(n)]
    } else {
        decimal(n / 10).push(digit_char(n % 10))
    }
}

/// `k` spaces.
pub open spec fn spaces(k: nat) -> Seq<char> {
    Seq::new(k, |i: int| ' ')
}

/// `n` in decimal, right-justified with spaces in a field of `FIELD_WIDTH`
/// characters; never truncated.
pub open spec fn field(n: nat) -> Seq<char> {
    if decimal(n).len() < FIELD_WIDTH {
        spaces((FIELD_WIDTH - decimal(n).len()) as nat) + decimal(n)
    } else {
        decimal(n)
    }
}

/// What precedes a line that receives the number `n`: its field and a tab.
pub open spec fn prefix(n: nat) -> Seq<char> {
    field(n).push('\t')
}

/// Relies on String::push: the character is appended at the end.
#[verifier::external_body]
fn push_char(s: &mut String, c: char)
    ensures
        final(s)@ == old(s)@.push(c),
{
    s.push(c);
}

fn digit(d: u32) -> (c: char)
    requires
        d < 10,
    ensures
        c == digit_char(d as nat),
{
    if d == 0 {
        '0'
    } else if d == 1 {
        '1'
    } else if d == 2 {
        '2'
    } else if d == 3 {
        '3'
    } else if d == 4 {
        '4'
    } else if d == 5 {
        '5'
    } else if d == 6 {
        '6'
    } else if d == 7 {
        '7'
    } else if d == 8 {
        '8'
    } else {
        '9'
    }
}

fn push_decimal(s: &mut String, n: u32)
    ensures
        final(s)@ == old(s)@ + decimal(n as nat),
    decreases n,
{
    if n >= 10 {
        push_decimal(s, n / 10);
    }
    push_char(s, digit(n % 10));
    proof {
        if n >= 10 {
            assert(final(s)@ =~= old(s)@ + decimal(n as nat));
        } else {
            assert(final(s)@ =~= old(s)@ + decimal(n as nat));
        }
    }
}

/// Renders `line` after the number `n`: the number right-justified in a
/// field of six characters, a tab, then the line as it is.
pub fn format_numbered(n: u32, line: &str) -> (r: String)
    ensures
        r@ == prefix(n as nat) + line@,
{
    let mut digits = String::new();
    push_decimal(&mut digits, n);
    let len = digits.as_str().unicode_len();
    let mut out = String::new();
    let mut i: usize = len;
    while i < FIELD_WIDTH
        invariant
            len == decimal(n as nat).len(),
            len <= i <= FIELD_WIDTH || (len > FIELD_WIDTH && i == len),
            out@ == spaces((i - len) as nat),
        decreases FIELD_WIDTH - i,
    {
        push_char(&mut out, ' ');
        i = i + 1;
        assert(out@ =~= spaces((i - len) as nat));
    }
    out.append(digits.as_str());
    push_char(&mut out, '\t');
    out.append(line);
    proof {
        if len >= FIELD_WIDTH {
            assert(spaces(0) =~= Seq::<char>::empty());
        }
        assert(out@ =~= prefix(n as nat) + line@);
    }
    out
}

} // verus!
