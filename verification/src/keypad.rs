//! Keypad scanning: four input lines, one symbol each, fixed priority.

use vstd::prelude::*;

verus! {

/// Number of keypad lines.
pub const KEYPAD_LINES: usize = 4;

/// Whether `symbol` belongs to the keypad's alphabet.
pub open spec fn is_symbol(symbol: char) -> bool {
    symbol == '1' || symbol == '2' || symbol == '3' || symbol == '4'
}

/// The symbol that the key on line `line` stands for; lines count from zero.
pub open spec fn symbol_of_line(line: int) -> char
    recommends
        0 <= line < KEYPAD_LINES,
{
    if line == 0 {
        '1'
    } else if line == 1 {
        '2'
    } else if line == 2 {
        '3'
    } else {
        '4'
    }
}

/// Whether `line` is the line that wins the sample `levels`: it is active and
/// no line before it is.
pub open spec fn wins(levels: Seq<bool>, line: int) -> bool {
    &&& 0 <= line < levels.len()
    &&& levels[line]
    &&& forall|j: int| 0 <= j < line ==> !levels[j]
}

/// Whether no line of the sample is active.
pub open spec fn all_idle(levels: Seq<bool>) -> bool {
    forall|j: int| 0 <= j < levels.len() ==> !levels[j]
}

/// The line that wins a sample: the lowest-indexed active line, if any.
pub open spec fn first_active(levels: Seq<bool>) -> Option<int> {
    if exists|line: int| wins(levels, line) {
        Some(choose|line: int| wins(levels, line))
    } else {
        None
    }
}

/// What a poll of the keypad reports for the sampled line levels.
pub open spec fn scan(levels: Seq<bool>) -> Option<char> {
    match first_active(levels) {
        Some(line) => Some(symbol_of_line(line)),
        None => None,
    }
}

/// At most one line wins a sample.
pub proof fn lemma_winner_unique(levels: Seq<bool>, a: int, b: int)
    requires
        wins(levels, a),
        wins(levels, b),
    ensures
        a == b,
{
}

/// `first_active` names the winner if there is one, and only then.
pub proof fn lemma_first_active(levels: Seq<bool>)
    ensures
        match first_active(levels) {
            Some(line) => wins(levels, line),
            None => all_idle(levels),
        },
{
    if !(exists|line: int| wins(levels, line)) {
        assert forall|j: int| 0 <= j < levels.len() implies !levels[j] by {
            lemma_no_winner_below(levels, j + 1);
        }
    }
}

proof fn lemma_no_winner_below(levels: Seq<bool>, k: int)
    requires
        0 <= k <= levels.len(),
        !(exists|line: int| wins(levels, line)),
    ensures
        forall|j: int| 0 <= j < k ==> !levels[j],
    decreases k,
{
    if k > 0 {
        lemma_no_winner_below(levels, k - 1);
        if levels[k - 1] {
            assert(wins(levels, k - 1));
        }
    }
}

/// The winning line decides what a poll reports, whatever the lines after it
/// show.
pub proof fn lemma_winner_decides(levels: Seq<bool>, line: int)
    requires
        wins(levels, line),
    ensures
        scan(levels) == Some(symbol_of_line(line)),
{
    lemma_first_active(levels);
    lemma_winner_unique(levels, line, first_active(levels).unwrap());
}

/// A poll reports a symbol of the alphabet or nothing.
pub proof fn lemma_scan_symbol(levels: Seq<bool>)
    requires
        levels.len() == KEYPAD_LINES,
    ensures
        match scan(levels) {
            Some(symbol) => is_symbol(symbol),
            None => all_idle(levels),
        },
{
    lemma_first_active(levels);
}

/// Resolves contention between input lines by fixed priority: of the lines
/// that are active in `levels`, the one with the lowest index wins.
pub fn resolve_priority(levels: &[bool]) -> (winner: Option<usize>)
    ensures
        match winner {
            Some(line) => wins(levels@, line as int),
            None => all_idle(levels@),
        },
        winner matches Some(line) ==> first_active(levels@) == Some(line as int),
        winner is None ==> first_active(levels@) is None,
{
    let mut i: usize = 0;
    while i < levels.len()
        invariant
            i <= levels.len(),
            forall|j: int| 0 <= j < i ==> !levels@[j],
        decreases levels.len() - i,
    {
        if levels[i] {
            proof {
                lemma_first_active(levels@);
                lemma_winner_unique(levels@, i as int, first_active(levels@).unwrap());
            }
            return Some(i);
        }
        i = i + 1;
    }
    proof {
        lemma_first_active(levels@);
    }
    None
}

/// Samples the four keypad lines once per poll and maps the winning line to
/// its symbol.
///
/// The scanner keeps no history. A key held across several polls is reported
/// on each of them.
#[derive(Clone, Copy, Debug)]
pub struct KeypadScanner {}

impl KeypadScanner {
    pub fn new() -> (scanner: KeypadScanner) {
        KeypadScanner {  }
    }

    /// The symbol of the key on a line, if the keypad has that line.
    pub fn symbol(line: usize) -> (symbol: Option<char>)
        ensures
            symbol == if line < KEYPAD_LINES {
                Some(symbol_of_line(line as int))
            } else {
                None
            },
    {
        if line == 0 {
            Some('1')
        } else if line == 1 {
            Some('2')
        } else if line == 2 {
            Some('3')
        } else if line == 3 {
            Some('4')
        } else {
            None
        }
    }

    /// Reports at most one symbol for the levels sampled on this tick: that
    /// of the lowest-indexed active line. The other active lines are ignored
    /// for the tick.
    pub fn poll(&self, levels: [bool; 4]) -> (symbol: Option<char>)
        ensures
            symbol == scan(levels@),
            match symbol {
                Some(s) => exists|line: int| wins(levels@, line) && s == symbol_of_line(line),
                None => all_idle(levels@),
            },
            symbol matches Some(s) ==> is_symbol(s),
    {
        match resolve_priority(levels.as_slice()) {
            Some(line) => Self::symbol(line),
            None => None,
        }
    }
}

} // verus!
