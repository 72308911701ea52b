//! Verified string building: decimal rendering, padding, line splitting
//! and substring search.  Every segment's renderer is specified in terms
//! of the spec functions defined here.

use vstd::prelude::*;

verus! {

/// The decimal digit `d` as a character; meaningful for `d < 10`.
pub open spec fn spec_digit_char(d: nat) -> char {
    if d == 0 {
        '0'
    } else if d == 1 {
        '1'
    } else if d == 2 {
        '2'
    } else if d == 3 {
        '3'
    } else if d == 4 {
        '4'
    } else if d == 5 {
        '5'
    } else if d == 6 {
        '6'
    } else if d == 7 {
        '7'
    } else if d == 8 {
        '8'
    } else {
        '9'
    }
}

/// The usual decimal rendering of `n`, without sign or leading zeros.
pub open spec fn spec_dec(n: nat) -> Seq<char>
    decreases n,
{
    if n < 10 {
        seq![spec_digit_char(n)]
    } else {
        spec_dec(n / 10) + seq![spec_digit_char(n % 10)]
    }
}

/// The decimal rendering of `n`, with a leading minus sign when negative.
pub open spec fn spec_dec_i64(n: int) -> Seq<char> {
    if n < 0 {
        seq!['-'] + spec_dec((-n) as nat)
    } else {
        spec_dec(n as nat)
    }
}

/// `n` spaces.
pub open spec fn spec_spaces(n: nat) -> Seq<char>
    decreases n,
{
    if n == 0 {
        Seq::empty()
    } else {
        spec_spaces((n - 1) as nat) + seq![' ']
    }
}

/// `text` right-aligned in a field of `width` characters; text wider than
/// the field is kept whole.
pub open spec fn spec_pad_left(text: Seq<char>, width: nat) -> Seq<char> {
    if text.len() <= width {
        spec_spaces((width - text.len()) as nat) + text
    } else {
        text
    }
}

/// `text` left-aligned in a field of `width` characters; text wider than
/// the field is kept whole.
pub open spec fn spec_pad_right(text: Seq<char>, width: nat) -> Seq<char> {
    if text.len() <= width {
        text + spec_spaces((width - text.len()) as nat)
    } else {
        text
    }
}

/// `needle` occurs contiguously in `haystack`.
pub open spec fn spec_contains(haystack: Seq<char>, needle: Seq<char>) -> bool {
    exists|i: int|
        0 <= i && i + needle.len() <= haystack.len() && #[trigger] haystack.subrange(
            i,
            i + needle.len(),
        ) == needle
}

fn push_digit(s: &mut String, d: u64)
    requires
        d < 10,
    ensures
        final(s)@ == old(s)@ + seq![spec_digit_char(d as nat)],
{
    let piece: &str = if d == 0 {
        "0"
    } else if d == 1 {
        "1"
    } else if d == 2 {
        "2"
    } else if d == 3 {
        "3"
    } else if d == 4 {
        "4"
    } else if d == 5 {
        "5"
    } else if d == 6 {
        "6"
    } else if d == 7 {
        "7"
    } else if d == 8 {
        "8"
    } else {
        "9"
    };
    proof {
        reveal_strlit("0");
        reveal_strlit("1");
        reveal_strlit("2");
        reveal_strlit("3");
        reveal_strlit("4");
        reveal_strlit("5");
        reveal_strlit("6");
        reveal_strlit("7");
        reveal_strlit("8");
        reveal_strlit("9");
        assert(piece@ =~= seq![spec_digit_char(d as nat)]);
    }
    s.append(piece);
}

/// Appends the decimal rendering of `n` to `s`.
pub fn push_u64(s: &mut String, n: u64)
    ensures
        final(s)@ == old(s)@ + spec_dec(n as nat),
    decreases n,
{
    if n >= 10 {
        push_u64(s, n / 10);
        push_digit(s, n % 10);
        assert(s@ =~= old(s)@ + spec_dec(n as nat));
    } else {
        push_digit(s, n);
    }
}

/// Appends the decimal rendering of `n`, signed, to `s`.
pub fn push_i64(s: &mut String, n: i64)
    ensures
        final(s)@ == old(s)@ + spec_dec_i64(n as int),
{
    if n < 0 {
        proof {
            reveal_strlit("-");
            assert("-"@ =~= seq!['-']);
        }
        s.append("-");
        // -i64::MIN does not fit in i64, so negate in two steps.
        let magnitude: u64 = if n == i64::MIN {
            9223372036854775808u64
        } else {
            (-n) as u64
        };
        push_u64(s, magnitude);
        assert(s@ =~= old(s)@ + spec_dec_i64(n as int));
    } else {
        push_u64(s, n as u64);
    }
}

/// The decimal rendering of `n` as a fresh string.
pub fn u64_string(n: u64) -> (r: String)
    ensures
        r@ == spec_dec(n as nat),
{
    let mut s = String::new();
    push_u64(&mut s, n);
    assert(s@ =~= spec_dec(n as nat));
    s
}

/// Appends `n` spaces to `s`.
pub fn push_spaces(s: &mut String, n: usize)
    ensures
        final(s)@ == old(s)@ + spec_spaces(n as nat),
{
    let mut i: usize = 0;
    while i < n
        invariant
            i <= n,
            s@ == old(s)@ + spec_spaces(i as nat),
        decreases n - i,
    {
        proof {
            reveal_strlit(" ");
            assert(" "@ =~= seq![' ']);
        }
        s.append(" ");
        i = i + 1;
        assert(s@ =~= old(s)@ + spec_spaces(i as nat));
    }
}

/// Appends `text` right-aligned in a field of `width` characters.
pub fn push_pad_left(s: &mut String, text: &str, width: usize)
    ensures
        final(s)@ == old(s)@ + spec_pad_left(text@, width as nat),
{
    let len = text.unicode_len();
    if len <= width {
        push_spaces(s, width - len);
        s.append(text);
        assert(s@ =~= old(s)@ + spec_pad_left(text@, width as nat));
    } else {
        s.append(text);
    }
}

/// Appends `text` left-aligned in a field of `width` characters.
pub fn push_pad_right(s: &mut String, text: &str, width: usize)
    ensures
        final(s)@ == old(s)@ + spec_pad_right(text@, width as nat),
{
    let len = text.unicode_len();
    s.append(text);
    if len <= width {
        push_spaces(s, width - len);
        assert(s@ =~= old(s)@ + spec_pad_right(text@, width as nat));
    }
}

/// A character with an ASCII capital letter folded to its small form;
/// anything else is kept.
pub open spec fn spec_lower_char(c: char) -> char {
    if c == 'A' {
        'a'
    } else if c == 'B' {
        'b'
    } else if c == 'C' {
        'c'
    } else if c == 'D' {
        'd'
    } else if c == 'E' {
        'e'
    } else if c == 'F' {
        'f'
    } else if c == 'G' {
        'g'
    } else if c == 'H' {
        'h'
    } else if c == 'I' {
        'i'
    } else if c == 'J' {
        'j'
    } else if c == 'K' {
        'k'
    } else if c == 'L' {
        'l'
    } else if c == 'M' {
        'm'
    } else if c == 'N' {
        'n'
    } else if c == 'O' {
        'o'
    } else if c == 'P' {
        'p'
    } else if c == 'Q' {
        'q'
    } else if c == 'R' {
        'r'
    } else if c == 'S' {
        's'
    } else if c == 'T' {
        't'
    } else if c == 'U' {
        'u'
    } else if c == 'V' {
        'v'
    } else if c == 'W' {
        'w'
    } else if c == 'X' {
        'x'
    } else if c == 'Y' {
        'y'
    } else if c == 'Z' {
        'z'
    } else {
        c
    }
}

/// A text with its ASCII capitals folded to small letters.
pub open spec fn spec_lower_of(s: Seq<char>) -> Seq<char> {
    s.map_values(|c: char| spec_lower_char(c))
}

/// Folds one ASCII capital letter to its small form.
pub fn lower_char(c: char) -> (r: char)
    ensures
        r == spec_lower_char(c),
{
    match c {
        'A' => 'a',
        'B' => 'b',
        'C' => 'c',
        'D' => 'd',
        'E' => 'e',
        'F' => 'f',
        'G' => 'g',
        'H' => 'h',
        'I' => 'i',
        'J' => 'j',
        'K' => 'k',
        'L' => 'l',
        'M' => 'm',
        'N' => 'n',
        'O' => 'o',
        'P' => 'p',
        'Q' => 'q',
        'R' => 'r',
        'S' => 's',
        'T' => 't',
        'U' => 'u',
        'V' => 'v',
        'W' => 'w',
        'X' => 'x',
        'Y' => 'y',
        'Z' => 'z',
        _ => c,
    }
}

/// Whether `needle`, folded, stands at position `i` of the folded
/// `haystack`.
fn match_at_ci(haystack: &str, needle: &str, i: usize) -> (r: bool)
    requires
        i + needle@.len() <= haystack@.len(),
    ensures
        r <==> spec_lower_of(haystack@).subrange(i as int, i + needle@.len()) == spec_lower_of(
            needle@,
        ),
{
    let h_len = haystack.unicode_len();
    let n_len = needle.unicode_len();
    let mut j: usize = 0;
    while j < n_len
        invariant
            h_len == haystack@.len(),
            i + n_len <= h_len,
            n_len == needle@.len(),
            j <= n_len,
            forall|k: int|
                0 <= k < j ==> spec_lower_of(haystack@)[i + k] == spec_lower_of(needle@)[k],
        decreases n_len - j,
    {
        let hc = lower_char(haystack.get_char(i + j));
        let nc = lower_char(needle.get_char(j));
        if hc != nc {
            proof {
                assert(spec_lower_of(haystack@).subrange(i as int, i + needle@.len())[j as int]
                    == spec_lower_of(haystack@)[i + j]);
            }
            return false;
        }
        j = j + 1;
    }
    proof {
        assert(spec_lower_of(haystack@).subrange(i as int, i + needle@.len()) =~= spec_lower_of(
            needle@,
        ));
    }
    true
}

/// Whether `needle` occurs in `haystack` without regard to ASCII case.
pub fn str_contains_ci(haystack: &str, needle: &str) -> (r: bool)
    ensures
        r == spec_contains(spec_lower_of(haystack@), spec_lower_of(needle@)),
{
    let ghost lh = spec_lower_of(haystack@);
    let ghost ln = spec_lower_of(needle@);
    let h_len = haystack.unicode_len();
    let n_len = needle.unicode_len();
    if n_len == 0 {
        proof {
            let ghost z: int = 0;
            assert(lh.subrange(z, z + ln.len()) =~= ln);
        }
        return true;
    }
    if n_len > h_len {
        proof {
            if spec_contains(lh, ln) {
                let w = choose|k: int|
                    0 <= k && k + ln.len() <= lh.len() && #[trigger] lh.subrange(
                        k,
                        k + ln.len(),
                    ) == ln;
            }
        }
        return false;
    }
    let mut i: usize = 0;
    while i <= h_len - n_len
        invariant
            1 <= n_len <= h_len,
            h_len == haystack@.len(),
            n_len == needle@.len(),
            lh == spec_lower_of(haystack@),
            ln == spec_lower_of(needle@),
            i <= h_len - n_len + 1,
            forall|k: int| 0 <= k < i ==> #[trigger] lh.subrange(k, k + ln.len()) != ln,
        decreases h_len - n_len + 1 - i,
    {
        if match_at_ci(haystack, needle, i) {
            proof {
                let ghost w: int = i as int;
                assert(lh.subrange(w, w + ln.len()) == ln);
            }
            return true;
        }
        i = i + 1;
    }
    proof {
        if spec_contains(lh, ln) {
            let w = choose|k: int|
                0 <= k && k + ln.len() <= lh.len() && #[trigger] lh.subrange(k, k + ln.len())
                    == ln;
            assert(lh.subrange(w, w + ln.len()) != ln);
        }
    }
    false
}

/// Whether `needle` stands at position `i` of `haystack`.
pub(crate) fn match_at(haystack: &str, needle: &str, i: usize) -> (r: bool)
    requires
        i + needle@.len() <= haystack@.len(),
    ensures
        r <==> haystack@.subrange(i as int, i + needle@.len()) == needle@,
{
    let h_len = haystack.unicode_len();
    let n_len = needle.unicode_len();
    let mut j: usize = 0;
    while j < n_len
        invariant
            h_len == haystack@.len(),
            i + n_len <= h_len,
            n_len == needle@.len(),
            j <= n_len,
            forall|k: int| 0 <= k < j ==> haystack@[i + k] == needle@[k],
        decreases n_len - j,
    {
        let hc = haystack.get_char(i + j);
        let nc = needle.get_char(j);
        if hc != nc {
            proof {
                assert(haystack@.subrange(i as int, i + needle@.len())[j as int] == haystack@[i
                    + j]);
            }
            return false;
        }
        j = j + 1;
    }
    proof {
        assert(haystack@.subrange(i as int, i + needle@.len()) =~= needle@);
    }
    true
}

/// Whether `needle` occurs contiguously in `haystack`.
pub fn str_contains(haystack: &str, needle: &str) -> (r: bool)
    ensures
        r == spec_contains(haystack@, needle@),
{
    let h_len = haystack.unicode_len();
    let n_len = needle.unicode_len();
    if n_len == 0 {
        proof {
            let ghost z: int = 0;
            assert(haystack@.subrange(z, z + needle@.len()) =~= needle@);
        }
        return true;
    }
    if n_len > h_len {
        proof {
            if spec_contains(haystack@, needle@) {
                let w = choose|k: int|
                    0 <= k && k + needle@.len() <= haystack@.len() && #[trigger] haystack@.subrange(
                        k,
                        k + needle@.len(),
                    ) == needle@;
            }
        }
        return false;
    }
    let mut i: usize = 0;
    while i <= h_len - n_len
        invariant
            n_len <= h_len,
            h_len == haystack@.len(),
            n_len == needle@.len(),
            1 <= n_len,
            i <= h_len - n_len + 1,
            forall|k: int|
                0 <= k < i ==> #[trigger] haystack@.subrange(k, k + needle@.len()) != needle@,
        decreases h_len - n_len + 1 - i,
    {
        if match_at(haystack, needle, i) {
            return true;
        }
        i = i + 1;
    }
    proof {
        if spec_contains(haystack@, needle@) {
            let w = choose|k: int|
                0 <= k && k + needle@.len() <= haystack@.len() && #[trigger] haystack@.subrange(
                    k,
                    k + needle@.len(),
                ) == needle@;
            assert(haystack@.subrange(w, w + needle@.len()) != needle@);
        }
    }
    false
}

} // verus!
