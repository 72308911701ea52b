//! The heading segment: a drawn saying rendered as a large figlet
//! figure.  The font file load and the figure conversion live with
//! acquisition; the font draw, the figure clean-up and the layout are
//! pure.

use vstd::prelude::*;
use crate::outside::random_below;
use crate::render::{split_lines, spec_lines_of, Info, SegmentRenderer};

verus! {

/// What can go wrong turning a heading into a figure.
#[derive(Debug)]
pub enum FigletError {
    FontLoadError { path: String, message: String },
    ConversionError { message: String },
}

impl FigletError {
    /// The error's text.
    pub fn message_text(&self) -> (r: String)
        ensures
            self matches FigletError::FontLoadError { path, message } ==> r@
                == "Could not load font from "@ + path@ + ": "@ + message@,
            self matches FigletError::ConversionError { message } ==> r@
                == "Could not convert text to figlet: "@ + message@,
    {
        match self {
            FigletError::FontLoadError { path, message } => {
                let mut s = String::new();
                s.append("Could not load font from ");
                s.append(path.as_str());
                s.append(": ");
                s.append(message.as_str());
                assert(s@ =~= "Could not load font from "@ + path@ + ": "@ + message@);
                s
            },
            FigletError::ConversionError { message } => {
                let mut s = String::new();
                s.append("Could not convert text to figlet: ");
                s.append(message.as_str());
                assert(s@ =~= "Could not convert text to figlet: "@ + message@);
                s
            },
        }
    }
}

/// The fonts a heading may be drawn in.
pub open spec fn spec_fonts() -> Seq<Seq<char>> {
    seq![
        "bell"@,
        "slant"@,
        "contessa"@,
        "computer"@,
        "cricket"@,
        "cybermedium"@,
        "jazmine"@,
        "rectangles"@,
    ]
}

/// Draws one of the heading fonts at random.
pub fn random_font() -> (r: String)
    ensures
        spec_fonts().contains(r@),
{
    let choice = random_below(8);
    let name: &str = if choice == 0 {
        "bell"
    } else if choice == 1 {
        "slant"
    } else if choice == 2 {
        "contessa"
    } else if choice == 3 {
        "computer"
    } else if choice == 4 {
        "cricket"
    } else if choice == 5 {
        "cybermedium"
    } else if choice == 6 {
        "jazmine"
    } else {
        "rectangles"
    };
    proof {
        assert(spec_fonts()[choice as int] == name@);
    }
    name.to_owned()
}

/// A text with leading newlines removed.
pub open spec fn spec_trim_leading_newlines(s: Seq<char>) -> Seq<char>
    decreases s.len(),
{
    if s.len() > 0 && s[0] == '\n' {
        spec_trim_leading_newlines(s.drop_first())
    } else {
        s
    }
}

/// A text with trailing newlines removed.
pub open spec fn spec_trim_trailing_newlines(s: Seq<char>) -> Seq<char>
    decreases s.len(),
{
    if s.len() > 0 && s.last() == '\n' {
        spec_trim_trailing_newlines(s.drop_last())
    } else {
        s
    }
}

/// A figure with the empty lines a font leaves above and below removed.
pub open spec fn spec_trim_newlines(s: Seq<char>) -> Seq<char> {
    spec_trim_trailing_newlines(spec_trim_leading_newlines(s))
}

/// Strips the newlines around a converted figure.
pub fn trim_newlines(s: &str) -> (r: String)
    ensures
        r@ == spec_trim_newlines(s@),
{
    let len = s.unicode_len();
    let mut start: usize = 0;
    proof {
        assert(s@.subrange(0, len as int) =~= s@);
    }
    while start < len
        invariant
            len == s@.len(),
            start <= len,
            spec_trim_leading_newlines(s@) == spec_trim_leading_newlines(
                s@.subrange(start as int, len as int),
            ),
        ensures
            start <= len,
            spec_trim_leading_newlines(s@) == spec_trim_leading_newlines(
                s@.subrange(start as int, len as int),
            ),
            start < len ==> s@[start as int] != '\n',
        decreases len - start,
    {
        let ghost rest = s@.subrange(start as int, len as int);
        proof {
            assert(rest[0] == s@[start as int]);
            assert(rest.drop_first() =~= s@.subrange(start + 1, len as int));
        }
        if s.get_char(start) != '\n' {
            break;
        }
        start = start + 1;
    }
    let ghost lead = s@.subrange(start as int, len as int);
    proof {
        if start < len {
            assert(spec_trim_leading_newlines(lead) == lead);
        } else {
            assert(lead =~= Seq::<char>::empty());
        }
    }
    let mut stop: usize = len;
    while stop > start
        invariant
            start <= stop <= len,
            len == s@.len(),
            lead == s@.subrange(start as int, len as int),
            spec_trim_trailing_newlines(lead) == spec_trim_trailing_newlines(
                s@.subrange(start as int, stop as int),
            ),
        ensures
            start <= stop <= len,
            spec_trim_trailing_newlines(lead) == spec_trim_trailing_newlines(
                s@.subrange(start as int, stop as int),
            ),
            stop > start ==> s@[stop - 1] != '\n',
        decreases stop,
    {
        let ghost part = s@.subrange(start as int, stop as int);
        proof {
            assert(part.last() == s@[stop - 1]);
            assert(part.drop_last() =~= s@.subrange(start as int, stop - 1));
        }
        if s.get_char(stop - 1) != '\n' {
            break;
        }
        stop = stop - 1;
    }
    proof {
        let part = s@.subrange(start as int, stop as int);
        if stop > start {
            assert(spec_trim_trailing_newlines(part) == part);
        } else {
            assert(part =~= Seq::<char>::empty());
        }
    }
    let kept = s.substring_char(start, stop);
    kept.to_owned()
}

/// Snapshot of the heading: the drawn saying, its rendered figure, and
/// the font it was drawn with.
pub struct HeadingInfo {
    pub heading: String,
    pub figure: String,
    pub font_choice: String,
}

impl Info for HeadingInfo {

}

impl HeadingInfo {
    pub fn new(heading: String, figure: String, font_choice: String) -> (r: Self)
        ensures
            r.heading == heading,
            r.figure == figure,
            r.font_choice == font_choice,
    {
        HeadingInfo { heading, figure, font_choice }
    }
}

/// Prepares the heading snapshot; drawing the figure itself needs the
/// font files and lives with acquisition.
pub struct HeadingSegmentInfoBuilder {
}

impl HeadingSegmentInfoBuilder {
    pub fn new() -> (r: Self) {
        HeadingSegmentInfoBuilder {  }
    }
}

impl Default for HeadingSegmentInfoBuilder {
    fn default() -> (r: Self) {
        HeadingSegmentInfoBuilder {  }
    }
}

/// Renders the heading: one padding line, the figure's lines, two
/// padding lines below.
pub struct HeadingSegmentRenderer {
    pub info: HeadingInfo,
}

impl HeadingSegmentRenderer {
    pub fn new(info: HeadingInfo) -> (r: Self)
        ensures
            r.info == info,
    {
        HeadingSegmentRenderer { info }
    }
}

impl SegmentRenderer for HeadingSegmentRenderer {
    open spec fn spec_lines(&self) -> Seq<Seq<char>> {
        seq![Seq::<char>::empty()] + spec_lines_of(self.info.figure@) + seq![
            Seq::<char>::empty(),
            Seq::<char>::empty(),
        ]
    }

    fn height(&self) -> (h: usize) {
        let r = self.render_lines();
        r.len()
    }

    fn render_lines(&self) -> (r: Vec<String>) {
        let mut v: Vec<String> = Vec::new();
        v.push(String::new());
        let figure_lines = split_lines(self.info.figure.as_str());
        let ghost fig = figure_lines@.map_values(|x: String| x@);
        let n = figure_lines.len();
        let mut i: usize = 0;
        while i < n
            invariant
                n == figure_lines@.len(),
                fig == figure_lines@.map_values(|x: String| x@),
                i <= n,
                v@.map_values(|x: String| x@) == seq![Seq::<char>::empty()] + fig.subrange(
                    0,
                    i as int,
                ),
            decreases n - i,
        {
            let ghost prev = v@.map_values(|x: String| x@);
            let line = figure_lines[i].clone();
            v.push(line);
            i = i + 1;
            proof {
                assert(fig.subrange(0, i as int) =~= fig.subrange(0, i - 1).push(fig[i - 1]));
                assert(v@.map_values(|x: String| x@) =~= prev.push(fig[i - 1]));
            }
        }
        v.push(String::new());
        v.push(String::new());
        proof {
            assert(fig.subrange(0, n as int) =~= fig);
            assert(v@.map_values(|x: String| x@) =~= self.spec_lines());
        }
        v
    }
}

} // verus!
