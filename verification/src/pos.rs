//! Positions and ranges of the editor protocol, and URI normalization.
//!
//! The editor protocol counts lines from zero; the compiler's locations
//! count them from one. These helpers convert between the two, decide
//! membership of a position in a location, extract lines of a source
//! text, and normalize URIs (a quirk of one platform spells the drive
//! letter three ways; normalization lower-cases the URI and restores
//! the drive colon before parsing).

use vstd::prelude::*;
use crate::ast::Token;
use crate::error::Location;
use crate::deep::value_dup;

verus! {

/// A zero-based position in a document.
#[derive(Clone, Copy, Debug, PartialEq, Eq, Structural)]
pub struct Position {
    pub line: u32,
    pub character: u32,
}

/// A half-open range between two positions.
#[derive(Clone, Copy, Debug, PartialEq, Eq, Structural)]
pub struct Range {
    pub start: Position,
    pub end: Position,
}

/// Converts a location to an editor range, when its ends are known.
pub fn loc_to_range(loc: Location) -> (r: Option<Range>)
    ensures
        match r {
            Some(rg) => loc.spec_ln_begin() matches Some(lb) && loc.spec_col_begin() matches Some(
                cb,
            ) && loc.spec_ln_end() matches Some(le) && loc.spec_col_end() matches Some(ce) && rg
                == (Range {
                start: Position { line: sat_dec(lb), character: cb },
                end: Position { line: sat_dec(le), character: ce },
            }),
            None => loc.spec_ln_begin() is None || loc.spec_col_begin() is None
                || loc.spec_ln_end() is None || loc.spec_col_end() is None,
        },
{
    let lb = match loc.ln_begin() {
        Some(x) => x,
        None => {
            return None;
        },
    };
    let cb = match loc.col_begin() {
        Some(x) => x,
        None => {
            return None;
        },
    };
    let le = match loc.ln_end() {
        Some(x) => x,
        None => {
            return None;
        },
    };
    let ce = match loc.col_end() {
        Some(x) => x,
        None => {
            return None;
        },
    };
    Some(
        Range {
            start: Position { line: sat_sub_one(lb), character: cb },
            end: Position { line: sat_sub_one(le), character: ce },
        },
    )
}

/// One less, saturating at zero.
pub open spec fn sat_dec(x: u32) -> u32 {
    if x == 0 {
        0
    } else {
        (x - 1) as u32
    }
}

fn sat_sub_one(x: u32) -> (r: u32)
    ensures
        r == sat_dec(x),
{
    if x == 0 {
        0
    } else {
        x - 1
    }
}

/// Converts a location to the editor position just after its start;
/// the column is pushed one right so completion sees the word itself.
pub fn loc_to_pos(loc: Location) -> (r: Option<Position>)
    ensures
        match r {
            Some(p) => loc.spec_ln_begin() matches Some(lb) && loc.spec_col_begin() matches Some(
                cb,
            ) && cb < u32::MAX && p == (Position { line: sat_dec(lb), character: (cb + 1) as u32 }),
            None => loc.spec_ln_begin() is None || loc.spec_col_begin() is None || loc.spec_col_begin()
                == Some(u32::MAX),
        },
{
    let lb = match loc.ln_begin() {
        Some(x) => x,
        None => {
            return None;
        },
    };
    let cb = match loc.col_begin() {
        Some(x) => x,
        None => {
            return None;
        },
    };
    if cb == u32::MAX {
        return None;
    }
    Some(Position { line: sat_sub_one(lb), character: cb + 1 })
}

/// Converts an editor position back to a one-line location.
pub fn pos_to_loc(pos: Position) -> (r: Location)
    requires
        pos.line < u32::MAX,
    ensures
        r == (Location::Range {
            ln_begin: (pos.line + 1) as u32,
            col_begin: sat_dec(pos.character),
            ln_end: (pos.line + 1) as u32,
            col_end: pos.character,
        }),
{
    Location::range(pos.line + 1, sat_sub_one(pos.character), pos.line + 1, pos.character)
}

/// Whether a position falls inside a location: within its lines, and,
/// on a one-line location, within its columns.
pub open spec fn spec_pos_in_loc(loc: Location, pos: Position) -> bool {
    let lb = match loc.spec_ln_begin() {
        Some(x) => x as int,
        None => 0,
    };
    let le = match loc.spec_ln_end() {
        Some(x) => x as int,
        None => 0,
    };
    let cb = match loc.spec_col_begin() {
        Some(x) => x as int,
        None => 0,
    };
    let ce = match loc.spec_col_end() {
        Some(x) => x as int,
        None => 0,
    };
    let in_lines = lb <= pos.line + 1 <= le;
    if lb == le {
        in_lines && cb <= pos.character < ce
    } else {
        in_lines
    }
}

/// Decides membership of a position in a location.
pub fn pos_in_loc(loc: &Location, pos: Position) -> (r: bool)
    requires
        pos.line < u32::MAX,
    ensures
        r == spec_pos_in_loc(*loc, pos),
{
    let lb: u32 = match loc.ln_begin() {
        Some(x) => x,
        None => 0,
    };
    let le: u32 = match loc.ln_end() {
        Some(x) => x,
        None => 0,
    };
    let cb: u32 = match loc.col_begin() {
        Some(x) => x,
        None => 0,
    };
    let ce: u32 = match loc.col_end() {
        Some(x) => x,
        None => 0,
    };
    let in_lines = lb <= pos.line + 1 && pos.line + 1 <= le;
    if lb == le {
        in_lines && cb <= pos.character && pos.character < ce
    } else {
        in_lines
    }
}

/// The first token of a stream that spans a position, as a copy.
#[verifier::loop_isolation(false)]
pub fn get_token_from_stream(stream: &Vec<Token>, pos: Position) -> (r: Option<Token>)
    requires
        pos.line < u32::MAX,
    ensures
        match r {
            Some(t) => exists|i: int|
                0 <= i < stream@.len() && spec_pos_in_loc(stream@[i].loc, pos) && t.kind
                    == stream@[i].kind && t.content@ == stream@[i].content@ && t.loc
                    == stream@[i].loc && forall|j: int|
                    0 <= j < i ==> !spec_pos_in_loc(stream@[j].loc, pos),
            None => forall|j: int| 0 <= j < stream@.len() ==> !spec_pos_in_loc(stream@[j].loc, pos),
        },
{
    let n = stream.len();
    let mut i: usize = 0;
    while i < n
        invariant
            i <= n,
            n == stream@.len(),
            forall|j: int| 0 <= j < i ==> !spec_pos_in_loc(stream@[j].loc, pos),
        decreases n - i,
    {
        if pos_in_loc(&stream[i].loc, pos) {
            let t = Token {
                kind: stream[i].kind,
                content: stream[i].content.clone(),
                loc: stream[i].loc,
            };
            return Some(t);
        }
        i = i + 1;
    }
    None
}

// ---------------------------------------------------------------------
// Lines of a source text.
// ---------------------------------------------------------------------

/// The lines of a text, split on the line feed, each line stripped of
/// a trailing carriage return.
pub open spec fn strip_cr(s: Seq<char>) -> Seq<char> {
    if s.len() > 0 && s.last() == '\r' {
        s.drop_last()
    } else {
        s
    }
}

/// The line of the text starting at `from`, as its end index: the next
/// line feed, or the end of the text.
pub open spec fn line_end(s: Seq<char>, from: int) -> int
    decreases s.len() - from,
{
    if from >= s.len() {
        s.len() as int
    } else if s[from] == '\n' {
        from
    } else {
        line_end(s, from + 1)
    }
}

/// The zero-based `k`-th line of the text, if the text reaches it.
pub open spec fn spec_nth_line(s: Seq<char>, k: nat, from: int) -> Option<Seq<char>>
    decreases s.len() + 1 - from, k,
    via spec_nth_line_dec
{
    if from < 0 || from > s.len() {
        None
    } else {
        let e = line_end(s, from);
        if k == 0 {
            Some(strip_cr(s.subrange(from, e)))
        } else {
            spec_nth_line(s, (k - 1) as nat, e + 1)
        }
    }
}

/// Bounds of the scan for a line's end.
pub proof fn lemma_line_end_bounds(s: Seq<char>, from: int)
    requires
        0 <= from <= s.len(),
    ensures
        from <= line_end(s, from) <= s.len(),
    decreases s.len() - from,
{
    if from < s.len() && s[from] != '\n' {
        lemma_line_end_bounds(s, from + 1);
    }
}

#[via_fn]
proof fn spec_nth_line_dec(s: Seq<char>, k: nat, from: int) {
    if 0 <= from <= s.len() {
        lemma_line_end_bounds(s, from);
    }
}

/// Extracts the zero-based `k`-th line of a text; past the last line
/// the result is empty, as the callers expect of a short file.
#[verifier::loop_isolation(false)]
pub fn nth_line(code: &str, k: u32) -> (r: String)
    requires
        code@.len() < usize::MAX,
    ensures
        match spec_nth_line(code@, k as nat, 0) {
            Some(l) => r@ == l,
            None => r@ == Seq::<char>::empty(),
        },
{
    let n = code.unicode_len();
    let mut from: usize = 0;
    let mut remaining: u32 = k;
    while remaining > 0
        invariant
            from <= n + 1,
            n == code@.len(),
            spec_nth_line(code@, k as nat, 0) == spec_nth_line(
                code@,
                remaining as nat,
                from as int,
            ),
        decreases remaining,
    {
        if from > n {
            proof {
                assert(spec_nth_line(code@, remaining as nat, from as int) is None);
            }
            return String::new();
        }
        let e = find_line_end(code, from);
        from = e + 1;
        remaining = remaining - 1;
    }
    if from > n {
        return String::new();
    }
    let e = find_line_end(code, from);
    let raw = code.substring_char(from, e);
    let stripped = if raw.unicode_len() > 0 && raw.get_char(raw.unicode_len() - 1) == '\r' {
        raw.substring_char(0, raw.unicode_len() - 1)
    } else {
        raw
    };
    proof {
        assert(stripped@ =~= strip_cr(code@.subrange(from as int, line_end(code@, from as int))));
    }
    stripped.to_owned()
}

/// Scans to the end of the line starting at `from`.
#[verifier::loop_isolation(false)]
fn find_line_end(code: &str, from: usize) -> (r: usize)
    requires
        from <= code@.len(),
    ensures
        r == line_end(code@, from as int),
        from <= r <= code@.len(),
{
    let n = code.unicode_len();
    let mut i = from;
    while i < n
        invariant
            from <= i <= n,
            n == code@.len(),
            line_end(code@, from as int) == line_end(code@, i as int),
        decreases n - i,
    {
        if code.get_char(i) == '\n' {
            return i;
        }
        i = i + 1;
    }
    i
}

} // verus!
