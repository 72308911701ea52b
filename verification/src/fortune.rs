//! Fortune texts: a file's worth of sayings separated by `%` lines,
//! one of which is drawn at random, and the header block that shows a
//! drawn saying wrapped and indented.

use vstd::prelude::*;
use crate::outside::{fill_text, filled_of, random_below};
use crate::render::{spec_lines_of, split_lines};
use crate::text::{push_spaces, spec_spaces};

verus! {

/// The width a header fortune is wrapped to.
pub const HEADER_WRAP_WIDTH: usize = 80;

/// The indent every non-empty header line gets.
pub const HEADER_INDENT_WIDTH: usize = 7;

/// Drawing from an empty fortune collection.
#[derive(Debug)]
pub struct NoFortunesError;

impl NoFortunesError {
    /// The error's text.
    pub fn message(&self) -> (r: String)
        ensures
            r@ == "No fortunes available"@,
    {
        String::from_str("No fortunes available")
    }
}

/// The separator between two fortunes in a fortune file.
pub open spec fn spec_fortune_delimiter() -> Seq<char> {
    "\n%\n"@
}

/// Splitting `s` by the first match of `d` at or after `i`, the piece
/// under way having begun at `cur`: the scan that non-overlapping,
/// left-to-right splitting performs.
pub open spec fn spec_split_scan(s: Seq<char>, d: Seq<char>, i: int, cur: int) -> Seq<Seq<char>>
    recommends
        d.len() > 0,
        0 <= cur <= i <= s.len(),
    decreases s.len() - i,
{
    if i + d.len() > s.len() || d.len() == 0 {
        seq![s.subrange(cur, s.len() as int)]
    } else if s.subrange(i, i + d.len()) == d {
        seq![s.subrange(cur, i)] + spec_split_scan(s, d, i + d.len(), i + d.len())
    } else {
        spec_split_scan(s, d, i + 1, cur)
    }
}

/// The fortunes a file's content holds: the pieces between separator
/// lines.
pub open spec fn spec_fortunes_of(content: Seq<char>) -> Seq<Seq<char>> {
    spec_split_scan(content, spec_fortune_delimiter(), 0, 0)
}

/// A collection of fortunes.
pub struct Fortunes(pub Vec<String>);

impl Fortunes {
    /// Splits a fortune file's content into its fortunes.
    pub fn new(content: String) -> (r: Fortunes)
        ensures
            r.0@.map_values(|x: String| x@) == spec_fortunes_of(content@),
    {
        let s = content.as_str();
        let len = s.unicode_len();
        let d = "\n%\n";
        let d_len = d.unicode_len();
        proof {
            reveal_strlit("\n%\n");
        }
        let mut pieces: Vec<String> = Vec::new();
        let mut i: usize = 0;
        let mut cur: usize = 0;
        proof {
            assert(pieces@.map_values(|x: String| x@) =~= Seq::<Seq<char>>::empty());
            assert(Seq::<Seq<char>>::empty() + spec_split_scan(
                s@,
                spec_fortune_delimiter(),
                0,
                0,
            ) =~= spec_split_scan(s@, spec_fortune_delimiter(), 0, 0));
        }
        while d_len <= len && i <= len - d_len
            invariant
                len == s@.len(),
                d_len == spec_fortune_delimiter().len(),
                d@ == spec_fortune_delimiter(),
                d_len == 3,
                0 <= cur <= i <= len,
                spec_fortunes_of(s@) == pieces@.map_values(|x: String| x@) + spec_split_scan(
                    s@,
                    spec_fortune_delimiter(),
                    i as int,
                    cur as int,
                ),
            decreases len - i,
        {
            let ghost prev = pieces@.map_values(|x: String| x@);
            if crate::text::match_at(s, d, i) {
                let piece = s.substring_char(cur, i);
                pieces.push(piece.to_owned());
                proof {
                    assert(pieces@.map_values(|x: String| x@) =~= prev.push(
                        s@.subrange(cur as int, i as int),
                    ));
                    assert(prev.push(s@.subrange(cur as int, i as int)) =~= prev + seq![
                        s@.subrange(cur as int, i as int),
                    ]);
                }
                i = i + d_len;
                cur = i;
            } else {
                i = i + 1;
            }
        }
        let ghost done = pieces@.map_values(|x: String| x@);
        let tail = s.substring_char(cur, len);
        pieces.push(tail.to_owned());
        proof {
            assert(pieces@.map_values(|x: String| x@) =~= done.push(
                s@.subrange(cur as int, len as int),
            ));
            assert(pieces@.map_values(|x: String| x@) =~= spec_fortunes_of(s@));
        }
        Fortunes(pieces)
    }

    /// Draws one fortune at random; an empty collection is the one
    /// error.
    pub fn choose_one(&self) -> (r: Result<&String, NoFortunesError>)
        ensures
            r is Err <==> self.0@.len() == 0,
            r matches Ok(f) ==> exists|i: int| 0 <= i < self.0@.len() && self.0@[i] == *f,
    {
        if self.0.len() == 0 {
            return Result::Err(NoFortunesError);
        }
        let index = random_below(self.0.len());
        Result::Ok(&self.0[index])
    }
}

/// Whether a header line stays bare: empty lines are not indented.
pub open spec fn spec_indented_line(line: Seq<char>) -> Seq<char> {
    if line.len() == 0 {
        line
    } else {
        spec_spaces(HEADER_INDENT_WIDTH as nat) + line
    }
}

/// A drawn fortune shown as the dashboard's header: wrapped to the
/// header width and indented.
pub struct FortuneHeaderSegment {
    pub fortune: String,
}

impl FortuneHeaderSegment {
    pub fn new(fortune: String) -> (r: Self)
        ensures
            r.fortune == fortune,
    {
        FortuneHeaderSegment { fortune }
    }

    /// The header's lines: the fortune wrapped to the header width,
    /// every non-empty line indented.
    pub fn content_lines(&self) -> (r: Vec<String>)
        ensures
            r@.map_values(|x: String| x@) == spec_lines_of(
                filled_of(self.fortune@, HEADER_WRAP_WIDTH as int),
            ).map_values(|line: Seq<char>| spec_indented_line(line)),
    {
        let filled = fill_text(self.fortune.as_str(), HEADER_WRAP_WIDTH);
        let lines = split_lines(filled.as_str());
        let ghost raw = spec_lines_of(filled_of(self.fortune@, HEADER_WRAP_WIDTH as int));
        let n = lines.len();
        let mut out: Vec<String> = Vec::new();
        let mut i: usize = 0;
        while i < n
            invariant
                n == lines@.len(),
                raw == lines@.map_values(|x: String| x@),
                i <= n,
                out@.map_values(|x: String| x@) == raw.subrange(0, i as int).map_values(
                    |line: Seq<char>| spec_indented_line(line),
                ),
            decreases n - i,
        {
            let ghost prev = out@.map_values(|x: String| x@);
            let line = &lines[i];
            if line.as_str().unicode_len() == 0 {
                out.push(line.clone());
            } else {
                let mut indented = String::new();
                push_spaces(&mut indented, HEADER_INDENT_WIDTH);
                indented.append(line.as_str());
                out.push(indented);
            }
            i = i + 1;
            proof {
                assert(raw.subrange(0, i as int) =~= raw.subrange(0, i - 1).push(raw[i - 1]));
                assert(out@.map_values(|x: String| x@) =~= prev.push(
                    spec_indented_line(raw[i - 1]),
                ));
                assert(out@.map_values(|x: String| x@) =~= raw.subrange(0, i as int).map_values(
                    |line: Seq<char>| spec_indented_line(line),
                ));
            }
        }
        proof {
            assert(raw.subrange(0, n as int) =~= raw);
        }
        out
    }
}

} // verus!
