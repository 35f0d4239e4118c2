//! A progress bar of fifty cells.

use vstd::prelude::*;
use crate::text::{decimal, decimal_of, push_all, push_str, string_of};

verus! {

/// The number of cells of the bar.
pub const BAR_WIDTH: usize = 50;

/// The number of cells that are filled at a percentage.
pub open spec fn filled_cells(percentage: nat) -> nat {
    percentage * 50 / 100
}

/// `n` times the character `c`.
pub open spec fn repeated(c: char, n: nat) -> Seq<char> {
    Seq::new(n, |i: int| c)
}

/// The bar at a percentage: a carriage return, the message, the cells, the
/// percentage, and a tick with a line feed when the work is finished.
pub open spec fn progress_line(message: Seq<char>, percentage: nat, finished: bool) -> Seq<char> {
    "\r"@ + message + ": ["@ + repeated('█', filled_cells(percentage)) + repeated(
        '░',
        (50 - filled_cells(percentage)) as nat,
    ) + "] "@ + decimal(percentage) + "%"@ + if finished {
        " ✓\n"@
    } else {
        Seq::<char>::empty()
    }
}

fn push_repeated(out: &mut Vec<char>, c: char, n: usize)
    ensures
        final(out)@ == old(out)@ + repeated(c, n as nat),
{
    let mut i: usize = 0;
    proof {
        assert(out@ =~= old(out)@ + repeated(c, 0));
    }
    while i < n
        invariant
            i <= n,
            out@ == old(out)@ + repeated(c, i as nat),
        decreases n - i,
    {
        out.push(c);
        proof {
            assert(repeated(c, (i + 1) as nat) =~= repeated(c, i as nat).push(c));
        }
        i += 1;
    }
}

/// The progress bar for work that is done to `percentage` percent.
pub fn render_progress(message: &str, percentage: u32, finished: bool) -> (line: String)
    requires
        percentage <= 100,
    ensures
        line@ == progress_line(message@, percentage as nat, finished),
{
    let filled: usize = (percentage as usize * 50) / 100;
    let empty: usize = BAR_WIDTH - filled;
    let mut out: Vec<char> = Vec::new();
    push_str(&mut out, "\r");
    push_str(&mut out, message);
    push_str(&mut out, ": [");
    push_repeated(&mut out, '█', filled);
    push_repeated(&mut out, '░', empty);
    push_str(&mut out, "] ");
    let number = decimal_of(percentage as u64);
    push_all(&mut out, &number);
    push_str(&mut out, "%");
    if finished {
        push_str(&mut out, " ✓\n");
    }
    proof {
        assert(out@ =~= progress_line(message@, percentage as nat, finished));
    }
    string_of(&out)
}

} // verus!
