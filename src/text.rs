use vstd::prelude::*;

use crate::path::VectorPath;

verus! {

/// The numeral of a single decimal digit.
pub open spec fn digit_text(d: nat) -> Seq<char> {
    if d == 0 {
        "0"@
    } else if d == 1 {
        "1"@
    } else if d == 2 {
        "2"@
    } else if d == 3 {
        "3"@
    } else if d == 4 {
        "4"@
    } else if d == 5 {
        "5"@
    } else if d == 6 {
        "6"@
    } else if d == 7 {
        "7"@
    } else if d == 8 {
        "8"@
    } else {
        "9"@
    }
}

/// The decimal numeral of `n`, without leading zeros.
pub open spec fn decimal(n: nat) -> Seq<char>
    decreases n,
{
    if n < 10 {
        digit_text(n)
    } else {
        decimal(n / 10) + digit_text(n % 10)
    }
}

/// The drawing command of one unit square whose corner is at `p`:
/// move there, then trace the square and close it.
pub open spec fn square_command(p: (int, int)) -> Seq<char> {
    "M"@ + decimal(p.0 as nat) + ","@ + decimal(p.1 as nat) + "h1v1h-1z"@
}

/// The commands of the first `k` squares, separated by single spaces.
pub open spec fn commands_text(squares: Seq<(int, int)>, k: int) -> Seq<char>
    decreases k,
{
    if k <= 0 {
        Seq::empty()
    } else if k == 1 {
        square_command(squares[0])
    } else {
        commands_text(squares, k - 1) + " "@ + square_command(squares[k - 1])
    }
}

/// The path data (`d` attribute) of a sequence of unit squares.
pub open spec fn path_text(squares: Seq<(int, int)>) -> Seq<char> {
    commands_text(squares, squares.len() as int)
}

fn digit(d: usize) -> (r: &'static str)
    requires
        d < 10,
    ensures
        r@ == digit_text(d as nat),
{
    match d {
        0 => "0",
        1 => "1",
        2 => "2",
        3 => "3",
        4 => "4",
        5 => "5",
        6 => "6",
        7 => "7",
        8 => "8",
        _ => "9",
    }
}

/// Appends the decimal numeral of `n` to `s`.
pub fn append_decimal(s: &mut String, n: usize)
    ensures
        final(s)@ == old(s)@ + decimal(n as nat),
    decreases n,
{
    if n < 10 {
        s.append(digit(n));
    } else {
        append_decimal(s, n / 10);
        s.append(digit(n % 10));
        assert(final(s)@ == old(s)@ + decimal(n as nat));
    }
}

fn append_square(s: &mut String, p: (usize, usize))
    ensures
        final(s)@ == old(s)@ + square_command((p.0 as int, p.1 as int)),
{
    s.append("M");
    append_decimal(s, p.0);
    s.append(",");
    append_decimal(s, p.1);
    s.append("h1v1h-1z");
    assert(final(s)@ == old(s)@ + square_command((p.0 as int, p.1 as int)));
}

impl VectorPath {
    /// The path data of this path: each square as `M{x},{y}h1v1h-1z`, in
    /// order, separated by single spaces; empty for a path without squares.
    pub fn data(&self) -> (r: String)
        ensures
            r@ == path_text(self@.squares),
    {
        let n = self.len();
        let mut s = String::new();
        let mut i: usize = 0;
        while i < n
            invariant
                n == self@.squares.len(),
                i <= n,
                s@ == commands_text(self@.squares, i as int),
            decreases n - i,
        {
            if i > 0 {
                s.append(" ");
            }
            let p = self.square(i);
            append_square(&mut s, p);
            i = i + 1;
        }
        s
    }
}

} // verus!
