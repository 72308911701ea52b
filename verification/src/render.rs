//! The shared shape of a rendered segment: a block of text lines, most
//! of them led by a fixed-width label column, and the trait every
//! segment's renderer implements.

use vstd::prelude::*;
use crate::text::{
    push_pad_left, push_pad_right, push_spaces, spec_pad_left, spec_pad_right, spec_spaces,
};

verus! {

/// Width of the label column that content is aligned after.
pub const LABEL_COLUMN_WIDTH: usize = 16;

/// Width the right-aligned label text is padded to; the remaining two
/// columns separate it from the content.
pub const LABEL_TEXT_WIDTH: usize = 14;

/// A line led by a right-aligned label: the label padded to fourteen
/// columns, two spacer columns, then the content.
pub open spec fn spec_label_line(label: Seq<char>, content: Seq<char>) -> Seq<char> {
    spec_pad_left(label, LABEL_TEXT_WIDTH as nat) + "  "@ + content
}

/// A line led by a left-aligned label filling the whole label column.
pub open spec fn spec_left_label_line(label: Seq<char>, content: Seq<char>) -> Seq<char> {
    spec_pad_right(label, LABEL_COLUMN_WIDTH as nat) + content
}

/// A continuation line: a blank label column, then the content.
pub open spec fn spec_continuation_line(content: Seq<char>) -> Seq<char> {
    spec_spaces(LABEL_COLUMN_WIDTH as nat) + content
}

/// Builds a line led by a right-aligned label.
pub fn label_line(label: &str, content: &str) -> (r: String)
    ensures
        r@ == spec_label_line(label@, content@),
{
    let mut s = String::new();
    push_pad_left(&mut s, label, LABEL_TEXT_WIDTH);
    s.append("  ");
    s.append(content);
    assert(s@ =~= spec_label_line(label@, content@));
    s
}

/// Builds a line led by a left-aligned label.
pub fn left_label_line(label: &str, content: &str) -> (r: String)
    ensures
        r@ == spec_left_label_line(label@, content@),
{
    let mut s = String::new();
    push_pad_right(&mut s, label, LABEL_COLUMN_WIDTH);
    s.append(content);
    assert(s@ =~= spec_left_label_line(label@, content@));
    s
}

/// Builds a continuation line.
pub fn continuation_line(content: &str) -> (r: String)
    ensures
        r@ == spec_continuation_line(content@),
{
    let mut s = String::new();
    push_spaces(&mut s, LABEL_COLUMN_WIDTH);
    s.append(content);
    assert(s@ =~= spec_continuation_line(content@));
    s
}

/// Rows with the segment label attached: the first row carries it, the
/// rest align under it.
pub open spec fn spec_attach_label(label: Seq<char>, rows: Seq<Seq<char>>) -> Seq<Seq<char>> {
    Seq::new(
        rows.len(),
        |i: int|
            if i == 0 {
                spec_label_line(label, rows[i])
            } else {
                spec_continuation_line(rows[i])
            },
    )
}

/// Splitting on newlines, from the left: `cur` is the piece being read,
/// `acc` the finished pieces.
pub open spec fn spec_split_acc(s: Seq<char>, cur: Seq<char>, acc: Seq<Seq<char>>) -> Seq<
    Seq<char>,
>
    decreases s.len(),
{
    if s.len() == 0 {
        acc.push(cur)
    } else if s[0] == '\n' {
        spec_split_acc(s.drop_first(), Seq::empty(), acc.push(cur))
    } else {
        spec_split_acc(s.drop_first(), cur.push(s[0]), acc)
    }
}

/// A line with one trailing carriage return removed.
pub open spec fn spec_strip_cr(line: Seq<char>) -> Seq<char> {
    if line.len() > 0 && line[line.len() - 1] == '\r' {
        line.drop_last()
    } else {
        line
    }
}

/// The lines of a text, as `str::lines` sees them: pieces between
/// newlines, without a trailing empty piece, each without a trailing
/// carriage return.
pub open spec fn spec_lines_of(s: Seq<char>) -> Seq<Seq<char>> {
    let raw = spec_split_acc(s, Seq::empty(), Seq::empty());
    let kept = if raw.len() > 0 && raw.last().len() == 0 {
        raw.drop_last()
    } else {
        raw
    };
    kept.map_values(|line: Seq<char>| spec_strip_cr(line))
}

/// Splits a text into its lines.
pub fn split_lines(s: &str) -> (r: Vec<String>)
    ensures
        r@.map_values(|x: String| x@) == spec_lines_of(s@),
{
    let len = s.unicode_len();
    let mut raw: Vec<String> = Vec::new();
    let mut start: usize = 0;
    let mut i: usize = 0;
    proof {
        assert(s@.subrange(0, 0) =~= Seq::<char>::empty());
        assert(s@.subrange(0, len as int) =~= s@);
        assert(raw@.map_values(|x: String| x@) =~= Seq::<Seq<char>>::empty());
    }
    while i < len
        invariant
            len == s@.len(),
            start <= i <= len,
            spec_split_acc(s@, Seq::empty(), Seq::empty()) == spec_split_acc(
                s@.subrange(i as int, len as int),
                s@.subrange(start as int, i as int),
                raw@.map_values(|x: String| x@),
            ),
        decreases len - i,
    {
        let ghost rest = s@.subrange(i as int, len as int);
        let ghost cur = s@.subrange(start as int, i as int);
        let ghost acc = raw@.map_values(|x: String| x@);
        proof {
            assert(rest[0] == s@[i as int]);
            assert(rest.drop_first() =~= s@.subrange(i + 1, len as int));
        }
        let c = s.get_char(i);
        if c == '\n' {
            let piece = s.substring_char(start, i);
            raw.push(piece.to_owned());
            proof {
                assert(raw@.map_values(|x: String| x@) =~= acc.push(cur));
                assert(s@.subrange(i + 1, i + 1) =~= Seq::<char>::empty());
            }
            start = i + 1;
        } else {
            proof {
                assert(s@.subrange(start as int, i + 1) =~= cur.push(s@[i as int]));
            }
        }
        i = i + 1;
    }
    let ghost pre_acc = raw@.map_values(|x: String| x@);
    let tail = s.substring_char(start, len);
    raw.push(tail.to_owned());
    proof {
        assert(s@.subrange(len as int, len as int) =~= Seq::<char>::empty());
        assert(raw@.map_values(|x: String| x@) =~= pre_acc.push(
            s@.subrange(start as int, len as int),
        ));
    }
    // Drop a trailing empty piece, then strip carriage returns.
    let ghost raw_views = raw@.map_values(|x: String| x@);
    let keep_last = if raw.len() > 0 {
        raw[raw.len() - 1].as_str().unicode_len() > 0
    } else {
        true
    };
    if !keep_last {
        raw.pop();
        proof {
            assert(raw@.map_values(|x: String| x@) =~= raw_views.drop_last());
        }
    }
    let ghost kept = raw@.map_values(|x: String| x@);
    let mut out: Vec<String> = Vec::new();
    let n = raw.len();
    let mut j: usize = 0;
    while j < n
        invariant
            n == raw@.len(),
            kept == raw@.map_values(|x: String| x@),
            j <= n,
            out@.map_values(|x: String| x@) == kept.subrange(0, j as int).map_values(
                |line: Seq<char>| spec_strip_cr(line),
            ),
        decreases n - j,
    {
        let ghost prev = out@.map_values(|x: String| x@);
        let line = strip_cr(&raw[j]);
        out.push(line);
        j = j + 1;
        proof {
            assert(raw@[j - 1]@ == kept[j - 1]);
            assert(out@.map_values(|x: String| x@) =~= prev.push(spec_strip_cr(kept[j - 1])));
            assert(kept.subrange(0, j as int) =~= kept.subrange(0, j - 1).push(kept[j - 1]));
            assert(kept.subrange(0, j as int).map_values(
                |line: Seq<char>| spec_strip_cr(line),
            ) =~= prev.push(spec_strip_cr(kept[j - 1])));
        }
    }
    proof {
        assert(kept.subrange(0, n as int) =~= kept);
        assert(out@.map_values(|x: String| x@) =~= spec_lines_of(s@));
    }
    out
}

/// A segment's presentation: a block of text lines computed from its
/// snapshot alone, with the block's height always the number of lines.
pub trait SegmentRenderer: Sized {
    /// The lines this renderer paints, as a pure function of the
    /// snapshot it wraps.
    spec fn spec_lines(&self) -> Seq<Seq<char>>;

    /// The vertical space the segment needs, known before any painting.
    fn height(&self) -> (h: usize)
        ensures
            h == self.spec_lines().len(),
    ;

    /// The segment's lines; exactly `height()` of them.
    fn render_lines(&self) -> (r: Vec<String>)
        ensures
            r@.map_values(|x: String| x@) == self.spec_lines(),
    ;
}

/// Marks a per-segment immutable snapshot.
pub trait Info {

}

/// A line with one trailing carriage return removed.
fn strip_cr(line: &String) -> (r: String)
    ensures
        r@ == spec_strip_cr(line@),
{
    let len = line.as_str().unicode_len();
    if len > 0 {
        let last = line.as_str().get_char(len - 1);
        if last == '\r' {
            let r = line.as_str().substring_char(0, len - 1);
            proof {
                assert(line@.subrange(0, len - 1) =~= line@.drop_last());
            }
            return r.to_owned();
        }
    }
    line.clone()
}

} // verus!
