//! The quote segment: a drawn saying shown dimmed between padding
//! lines, indented from both margins.

use vstd::prelude::*;
use crate::render::{split_lines, spec_lines_of, Info, SegmentRenderer};
use crate::text::{push_spaces, spec_spaces};

verus! {

/// The horizontal padding around the quote's lines.
pub const QUOTE_PADDING_WIDTH: usize = 4;

/// Snapshot of the drawn quote.
pub struct QuoteInfo {
    pub quote: String,
}

impl Info for QuoteInfo {

}

impl QuoteInfo {
    pub fn new(quote: String) -> (r: Self)
        ensures
            r.quote == quote,
    {
        QuoteInfo { quote }
    }
}

/// Prepares the quote snapshot; drawing the saying needs the fortune
/// file and lives with acquisition.
pub struct QuoteInfoBuilder {
}

impl QuoteInfoBuilder {
    pub fn new() -> (r: Self) {
        QuoteInfoBuilder {  }
    }
}

impl Default for QuoteInfoBuilder {
    fn default() -> (r: Self) {
        QuoteInfoBuilder {  }
    }
}

/// A quote line with its left padding.
pub open spec fn spec_quote_line(line: Seq<char>) -> Seq<char> {
    spec_spaces(QUOTE_PADDING_WIDTH as nat) + line
}

/// Renders the quote: a padding line, the quote's lines indented, and
/// a padding line below.
pub struct QuoteSegmentRenderer {
    pub info: QuoteInfo,
}

impl QuoteSegmentRenderer {
    pub fn new(info: QuoteInfo) -> (r: Self)
        ensures
            r.info == info,
    {
        QuoteSegmentRenderer { info }
    }
}

impl SegmentRenderer for QuoteSegmentRenderer {
    open spec fn spec_lines(&self) -> Seq<Seq<char>> {
        seq![Seq::<char>::empty()] + spec_lines_of(self.info.quote@).map_values(
            |line: Seq<char>| spec_quote_line(line),
        ) + seq![Seq::<char>::empty()]
    }

    fn height(&self) -> (h: usize) {
        let r = self.render_lines();
        r.len()
    }

    fn render_lines(&self) -> (r: Vec<String>) {
        let mut v: Vec<String> = Vec::new();
        v.push(String::new());
        let quote_lines = split_lines(self.info.quote.as_str());
        let ghost ql = quote_lines@.map_values(|x: String| x@);
        let n = quote_lines.len();
        let mut i: usize = 0;
        while i < n
            invariant
                n == quote_lines@.len(),
                ql == quote_lines@.map_values(|x: String| x@),
                i <= n,
                v@.map_values(|x: String| x@) == seq![Seq::<char>::empty()] + ql.subrange(
                    0,
                    i as int,
                ).map_values(|line: Seq<char>| spec_quote_line(line)),
            decreases n - i,
        {
            let ghost prev = v@.map_values(|x: String| x@);
            let mut padded = String::new();
            push_spaces(&mut padded, QUOTE_PADDING_WIDTH);
            padded.append(quote_lines[i].as_str());
            v.push(padded);
            i = i + 1;
            proof {
                assert(ql.subrange(0, i as int) =~= ql.subrange(0, i - 1).push(ql[i - 1]));
                assert(v@.map_values(|x: String| x@) =~= prev.push(spec_quote_line(ql[i - 1])));
                assert(v@.map_values(|x: String| x@) =~= seq![Seq::<char>::empty()]
                    + ql.subrange(0, i as int).map_values(
                    |line: Seq<char>| spec_quote_line(line),
                ));
            }
        }
        v.push(String::new());
        proof {
            assert(ql.subrange(0, n as int) =~= ql);
            assert(v@.map_values(|x: String| x@) =~= self.spec_lines());
        }
        v
    }
}

} // verus!
