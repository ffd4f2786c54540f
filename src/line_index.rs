use vstd::prelude::*;

verus! {

pub open spec fn spec_is_line_break(ch: u32) -> bool {
    ch == 0x0A || ch == 0x0D || ch == 0x2028 || ch == 0x2029
}

/// Whether `ch` is one of the line terminators: line feed, carriage return,
/// line separator or paragraph separator.
#[verifier::when_used_as_spec(spec_is_line_break)]
pub fn is_line_break(ch: u32) -> (r: bool)
    ensures
        r == spec_is_line_break(ch),
{
    ch == 0x0A || ch == 0x0D || ch == 0x2028 || ch == 0x2029
}

/// A line ends with the character at `i`: a line feed, a line or paragraph
/// separator, or a carriage return that no line feed follows (a carriage return
/// and line feed pair ends its line at the line feed).
pub open spec fn ends_line_at(text: Seq<char>, i: int) -> bool {
    let ch = text[i] as u32;
    &&& 0 <= i < text.len()
    &&& spec_is_line_break(ch)
    &&& !(ch == 0x0D && i + 1 < text.len() && text[i + 1] as u32 == 0x0A)
}

/// The line starts within the first `n` characters of `text`: offset 0, and
/// each offset that follows the end of a line.
pub open spec fn line_starts_upto(text: Seq<char>, n: int) -> Seq<usize>
    decreases n,
{
    if n <= 0 {
        seq![0usize]
    } else if ends_line_at(text, n - 1) {
        line_starts_upto(text, n - 1).push(n as usize)
    } else {
        line_starts_upto(text, n - 1)
    }
}

/// The number of line ends among the first `n` characters of `text`.
pub open spec fn count_line_breaks(text: Seq<char>, n: int) -> nat
    decreases n,
{
    if n <= 0 {
        0
    } else if ends_line_at(text, n - 1) {
        count_line_breaks(text, n - 1) + 1
    } else {
        count_line_breaks(text, n - 1)
    }
}

/// The line index of `text`.
pub open spec fn line_starts_of(text: Seq<char>) -> Seq<usize> {
    line_starts_upto(text, text.len() as int)
}

/// Offsets that can index a text of `len` characters: strictly increasing,
/// starting at 0, none past `len`.
pub open spec fn valid_line_index(starts: Seq<usize>, len: int) -> bool {
    &&& starts.len() >= 1
    &&& starts[0] == 0
    &&& forall|i: int, j: int| 0 <= i < j < starts.len() ==> starts[i] < starts[j]
    &&& forall|i: int| 0 <= i < starts.len() ==> starts[i] <= len
}

/// The line index of any text is strictly increasing, starts at offset 0, and
/// has one entry more than the text has line breaks.
pub proof fn lemma_line_starts_shape(text: Seq<char>, n: int)
    requires
        0 <= n <= text.len(),
        text.len() <= usize::MAX,
    ensures
        valid_line_index(line_starts_upto(text, n), n),
        line_starts_upto(text, n).len() == 1 + count_line_breaks(text, n),
    decreases n,
{
    if n > 0 {
        lemma_line_starts_shape(text, n - 1);
    }
}

/// The line index of an empty text is `[0]`.
pub proof fn lemma_empty_text_line_starts(text: Seq<char>)
    requires
        text.len() == 0,
    ensures
        line_starts_of(text) == seq![0usize],
{
}

/// The offsets at which the lines of `text` start, in increasing order.
pub fn compute_line_starts(text: &[char]) -> (r: Vec<usize>)
    ensures
        r@ == line_starts_of(text@),
        valid_line_index(r@, text@.len() as int),
        r@.len() == 1 + count_line_breaks(text@, text@.len() as int),
{
    let mut result: Vec<usize> = Vec::new();
    result.push(0);
    let mut pos: usize = 0;
    while pos < text.len()
        invariant
            pos <= text.len(),
            result@ == line_starts_upto(text@, pos as int),
        decreases text.len() - pos,
    {
        let ch = text[pos] as u32;
        let ends = is_line_break(ch) && !(ch == 0x0D && pos + 1 < text.len() && text[pos + 1]
            as u32 == 0x0A);
        assert(ends == ends_line_at(text@, pos as int));
        if ends {
            result.push(pos + 1);
        }
        pos = pos + 1;
    }
    proof {
        lemma_line_starts_shape(text@, text@.len() as int);
    }
    result
}

/// The line of the index that holds `pos`: the last line whose start is at or
/// before `pos`.
pub fn compute_line_of_position(line_starts: &[usize], pos: usize) -> (line: usize)
    requires
        line_starts@.len() >= 1,
        line_starts@[0] == 0,
        forall|i: int, j: int| 0 <= i < j < line_starts@.len() ==> line_starts@[i] < line_starts@[j],
    ensures
        line < line_starts@.len(),
        line_starts@[line as int] <= pos,
        line + 1 < line_starts@.len() ==> pos < line_starts@[line + 1],
{
    // the answer lies in [lo, hi)
    let mut lo: usize = 0;
    let mut hi: usize = line_starts.len();
    while lo + 1 < hi
        invariant
            line_starts@.len() >= 1,
            forall|i: int, j: int|
                0 <= i < j < line_starts@.len() ==> line_starts@[i] < line_starts@[j],
            lo < hi <= line_starts@.len(),
            line_starts@[lo as int] <= pos,
            hi < line_starts@.len() ==> pos < line_starts@[hi as int],
        decreases hi - lo,
    {
        let mid: usize = lo + (hi - lo) / 2;
        if line_starts[mid] <= pos {
            lo = mid;
        } else {
            hi = mid;
        }
    }
    lo
}

/// The line and column of offset `pos`: the column counts from the start of
/// the line, and start plus column gives `pos` back.
pub fn compute_line_and_character_of_position(line_starts: &[usize], pos: usize) -> (r: (
    usize,
    usize,
))
    requires
        line_starts@.len() >= 1,
        line_starts@[0] == 0,
        forall|i: int, j: int| 0 <= i < j < line_starts@.len() ==> line_starts@[i] < line_starts@[j],
    ensures
        r.0 < line_starts@.len(),
        line_starts@[r.0 as int] <= pos,
        r.0 + 1 < line_starts@.len() ==> pos < line_starts@[r.0 + 1],
        line_starts@[r.0 as int] + r.1 == pos,
{
    let line = compute_line_of_position(line_starts, pos);
    (line, pos - line_starts[line])
}

/// For every offset, the line found in a text's line index and the column
/// measured from that line's start lead back to the offset.
pub proof fn lemma_offset_round_trip(text: Seq<char>, pos: usize, line: usize, column: usize)
    requires
        text.len() <= usize::MAX,
        line < line_starts_of(text).len(),
        line_starts_of(text)[line as int] <= pos,
        line + 1 < line_starts_of(text).len() ==> pos < line_starts_of(text)[line + 1],
        column == pos - line_starts_of(text)[line as int],
    ensures
        column >= 0,
        line_starts_of(text)[line as int] + column == pos,
        forall|l: int|
            0 <= l < line_starts_of(text).len() && line_starts_of(text)[l] <= pos ==> l <= line,
{
    lemma_line_starts_shape(text, text.len() as int);
}

} // verus!
