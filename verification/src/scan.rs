//! Reading one line of a trace: whether it counts, and the values it holds.

use vstd::prelude::*;
use vstd::slice::slice_subrange;
use crate::error::{ConversionError, ErrorView};
use crate::field::FIELD_COUNT;
use crate::record::TraceTokens;
use crate::text::{chars_of, split, split_ranges, trim_range, trimmed, SEPARATOR};

verus! {

/// The character that a comment line begins with.
pub const COMMENT: char = '#';

/// A line that holds no record: nothing but white space, or a comment.
pub open spec fn is_skipped(line: Seq<char>) -> bool {
    trimmed(line).len() == 0 || trimmed(line).first() == COMMENT
}

/// The values of a line: the pieces between the separators, each without
/// the white space around it.
pub open spec fn tokens(line: Seq<char>) -> Seq<Seq<char>> {
    split(trimmed(line), SEPARATOR).map_values(|piece: Seq<char>| trimmed(piece))
}

/// What is made of the line with the number `ordinal`: nothing if it is
/// skipped, its five values if it holds five, else an error.
pub open spec fn scan(line: Seq<char>, ordinal: nat) -> Result<Option<Seq<Seq<char>>>, ErrorView> {
    if is_skipped(line) {
        Ok(None)
    } else if tokens(line).len() == FIELD_COUNT {
        Ok(Some(tokens(line)))
    } else {
        Err(ErrorView::FieldCount { ordinal, line: trimmed(line), found: tokens(line).len() })
    }
}

/// The result of `scan_line` as contracts see it.
pub open spec fn scan_view(r: Result<Option<TraceTokens>, ConversionError>) -> Result<
    Option<Seq<Seq<char>>>,
    ErrorView,
> {
    match r {
        Ok(None) => Ok(None),
        Ok(Some(t)) => Ok(Some(t@)),
        Err(e) => Err(e@),
    }
}

/// Tells whether `line` holds no record.
pub fn skips(line: &str) -> (r: bool)
    ensures
        r == is_skipped(line@),
{
    let chars = chars_of(line);
    let (a, b) = trim_range(chars.as_slice());
    a == b || chars[a] == COMMENT
}

/// The text of `line[from..to]` without the white space around it.
fn piece_text(line: &str, chars: &[char], from: usize, to: usize) -> (r: String)
    requires
        chars@ == line@,
        from <= to <= chars@.len(),
    ensures
        r@ == trimmed(line@.subrange(from as int, to as int)),
{
    let piece = slice_subrange(chars, from, to);
    let (a, b) = trim_range(piece);
    line.substring_char(from + a, from + b).to_owned()
}

/// Reads the line with the number `ordinal`. A line that is blank or a
/// comment gives nothing. Any other line gives its five values, or the
/// error that says how many it holds instead.
pub fn scan_line(line: &str, ordinal: usize) -> (r: Result<Option<TraceTokens>, ConversionError>)
    ensures
        scan_view(r) == scan(line@, ordinal as nat),
{
    let chars = chars_of(line);
    let (a, b) = trim_range(chars.as_slice());
    if a == b || chars[a] == COMMENT {
        return Ok(None);
    }
    let core = slice_subrange(chars.as_slice(), a, b);
    let ranges = split_ranges(core, SEPARATOR);
    if ranges.len() != FIELD_COUNT {
        return Err(
            ConversionError::FieldCount {
                ordinal,
                line: line.substring_char(a, b).to_owned(),
                found: ranges.len(),
            },
        );
    }
    assert forall|k: int| 0 <= k < FIELD_COUNT implies core@.subrange(
        ranges@[k].0 as int,
        ranges@[k].1 as int,
    ) == line@.subrange(a + ranges@[k].0, a + #[trigger] ranges@[k].1) by {
        assert(core@.subrange(ranges@[k].0 as int, ranges@[k].1 as int) =~= line@.subrange(
            a + ranges@[k].0,
            a + ranges@[k].1,
        ));
    }
    let found = TraceTokens {
        time_created: piece_text(line, chars.as_slice(), a + ranges[0].0, a + ranges[0].1),
        time_started: piece_text(line, chars.as_slice(), a + ranges[1].0, a + ranges[1].1),
        time_done: piece_text(line, chars.as_slice(), a + ranges[2].0, a + ranges[2].1),
        cores: piece_text(line, chars.as_slice(), a + ranges[3].0, a + ranges[3].1),
        memory: piece_text(line, chars.as_slice(), a + ranges[4].0, a + ranges[4].1),
    };
    assert(found@ =~= tokens(line@));
    Ok(Some(found))
}

} // verus!
