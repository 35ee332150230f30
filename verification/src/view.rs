//! Pure derivation of the render-able view model: no side effects, no
//! widgets. A rendering layer turns this into pixels.
//!
//! The status line shows the file path — abbreviated to its last three
//! segments behind an ellipsis marker when it has more — and the cursor
//! position rendered 1-based as `line:column`. Controls are enabled per the
//! controller's guards.

use vstd::prelude::*;
use vstd::string::{StrSliceExecFns, StringExecFns};

use crate::app::Editor;
use crate::buffer::push_char;
use crate::theme::Theme;

verus! {

/// Offset `i` starts a path segment: it holds a non-separator that is at the
/// start or right after a separator.
pub open spec fn is_seg_start(p: Seq<char>, i: int) -> bool {
    0 <= i < p.len() && p[i] != '/' && (i == 0 || p[i - 1] == '/')
}

/// How many segments start at or after offset `i`.
pub open spec fn starts_from(p: Seq<char>, i: int) -> nat
    decreases p.len() - i,
{
    if i >= p.len() {
        0
    } else {
        starts_from(p, i + 1) + (if is_seg_start(p, i) { 1nat } else { 0nat })
    }
}

/// Number of segments of the path.
pub open spec fn seg_count(p: Seq<char>) -> nat {
    starts_from(p, 0)
}

/// The start of the third-from-last segment: the highest offset below `i`
/// that starts a segment with exactly two more after it.
pub open spec fn tail_from(p: Seq<char>, i: int) -> int
    decreases i,
{
    if i <= 0 {
        0
    } else if is_seg_start(p, i - 1) && starts_from(p, i - 1) == 3 {
        i - 1
    } else {
        tail_from(p, i - 1)
    }
}

/// The status-line rendering of a path: unchanged with up to three segments,
/// else an ellipsis marker before the last three.
pub open spec fn spec_status_path(p: Seq<char>) -> Seq<char> {
    if seg_count(p) > 3 {
        "../"@ + p.skip(tail_from(p, p.len() as int))
    } else {
        p
    }
}

/// What the status line shows: the path, or a sentinel for an untitled
/// document.
pub open spec fn spec_status_line(file: Option<Seq<char>>) -> Seq<char> {
    match file {
        Option::Some(p) => spec_status_path(p),
        Option::None => "New File"@,
    }
}

/// The decimal digit `d` as a character.
pub open spec fn digit_char(d: int) -> char {
    if d == 0 {
        '0'
    } else if d == 1 {
        '1'
    } else if d == 2 {
        '2'
    } else if d == 3 {
        '3'
    } else if d == 4 {
        '4'
    } else if d == 5 {
        '5'
    } else if d == 6 {
        '6'
    } else if d == 7 {
        '7'
    } else if d == 8 {
        '8'
    } else {
        '9'
    }
}

/// The decimal rendering of `n`, most significant digit first.
pub open spec fn dec_rep(n: nat) -> Seq<char>
    decreases n,
{
    if n < 10 {
        seq![digit_char(n as int)]
    } else {
        dec_rep(n / 10) + seq![digit_char((n % 10) as int)]
    }
}

/// The cursor rendered 1-based as `line:column`.
pub open spec fn spec_cursor_text(line: nat, col: nat) -> Seq<char> {
    dec_rep(line + 1) + seq![':'] + dec_rep(col + 1)
}

/// Offset just after the last separator at offsets below `i`: where the file
/// name starts.
pub open spec fn base_from(p: Seq<char>, i: int) -> int
    decreases i,
{
    if i <= 0 {
        0
    } else if p[i - 1] == '/' {
        i
    } else {
        base_from(p, i - 1)
    }
}

/// The highest dot offset below `i` and strictly after `base`, or -1: a dot
/// opening the file name marks a hidden file, not an extension.
pub open spec fn dot_from(p: Seq<char>, i: int, base: int) -> int
    decreases i - base,
{
    if i - base <= 1 {
        -1
    } else if p[i - 1] == '.' {
        i - 1
    } else {
        dot_from(p, i - 1, base)
    }
}

/// The path's extension, or the built-in default used for highlighting.
pub open spec fn spec_extension(p: Seq<char>) -> Seq<char> {
    let base = base_from(p, p.len() as int);
    let d = dot_from(p, p.len() as int, base);
    if d >= 0 {
        p.skip(d + 1)
    } else {
        "rs"@
    }
}

/// What the text surface highlights as: the file's extension, or the default
/// for an untitled document.
pub open spec fn spec_highlight(file: Option<Seq<char>>) -> Seq<char> {
    match file {
        Option::Some(p) => spec_extension(p),
        Option::None => "rs"@,
    }
}

/// Everything a rendering layer needs, as plain values.
#[derive(Clone, Debug, PartialEq)]
pub struct ViewModel {
    /// The file path, abbreviated, or the untitled sentinel.
    pub status_path: String,
    /// The cursor as 1-based `line:column`.
    pub cursor_text: String,
    /// The new-document control, available while no command is in flight.
    pub new_enabled: bool,
    /// The open control, available while no command is in flight.
    pub open_enabled: bool,
    /// The save control, available while no command is in flight.
    pub save_enabled: bool,
    /// Current word-wrap preference, bound to its toggle.
    pub word_wrap: bool,
    /// Current palette, marked in the theme selector.
    pub theme: Theme,
    /// Extension the text surface highlights as.
    pub highlight_extension: String,
}

/// Mirrors [`is_seg_start`].
fn is_seg_start_x(p: &Vec<char>, i: usize) -> (r: bool)
    requires
        i < p@.len(),
    ensures
        r == is_seg_start(p@, i as int),
{
    p[i] != '/' && (i == 0 || p[i - 1] == '/')
}

/// Counts the path's segments.
fn count_segments(p: &Vec<char>) -> (r: usize)
    ensures
        r == seg_count(p@),
{
    let mut i: usize = p.len();
    let mut c: usize = 0;
    while i > 0
        invariant
            i <= p@.len(),
            p@.len() <= usize::MAX,
            c == starts_from(p@, i as int),
            c <= p@.len() - i,
        decreases i,
    {
        i = i - 1;
        if is_seg_start_x(p, i) {
            c = c + 1;
        }
    }
    c
}

/// Finds where the third-from-last segment starts.
fn find_tail(p: &Vec<char>) -> (r: usize)
    ensures
        r == tail_from(p@, p@.len() as int),
        r <= p@.len(),
{
    let mut i: usize = p.len();
    let mut c: usize = 0;
    while i > 0
        invariant
            i <= p@.len(),
            p@.len() <= usize::MAX,
            c == starts_from(p@, i as int),
            c <= p@.len() - i,
            tail_from(p@, p@.len() as int) == tail_from(p@, i as int),
        decreases i,
    {
        i = i - 1;
        let st = is_seg_start_x(p, i);
        if st {
            c = c + 1;
        }
        if st && c == 3 {
            return i;
        }
    }
    0
}

/// Mirrors [`base_from`].
fn base_from_x(p: &Vec<char>, i: usize) -> (r: usize)
    requires
        i <= p@.len(),
    ensures
        r == base_from(p@, i as int),
        r <= i,
    decreases i,
{
    if i == 0 {
        0
    } else if p[i - 1] == '/' {
        i
    } else {
        base_from_x(p, i - 1)
    }
}

/// Mirrors [`dot_from`].
fn dot_from_x(p: &Vec<char>, i: usize, base: usize) -> (r: Option<usize>)
    requires
        base <= i <= p@.len(),
    ensures
        match r {
            Option::Some(d) => dot_from(p@, i as int, base as int) == d as int && base < d < p@.len(),
            Option::None => dot_from(p@, i as int, base as int) == -1,
        },
    decreases i,
{
    if i - base <= 1 {
        Option::None
    } else if p[i - 1] == '.' {
        Option::Some(i - 1)
    } else {
        dot_from_x(p, i - 1, base)
    }
}

/// The characters of a string, one element each.
fn string_chars(s: &str) -> (r: Vec<char>)
    ensures
        r@ == s@,
{
    let n = s.unicode_len();
    let mut v: Vec<char> = Vec::new();
    let mut i: usize = 0;
    proof {
        assert(v@ =~= s@.take(0));
    }
    while i < n
        invariant
            i <= n,
            n == s@.len(),
            v@ == s@.take(i as int),
        decreases n - i,
    {
        v.push(s.get_char(i));
        proof {
            assert(s@.take(i as int).push(s@[i as int]) =~= s@.take(i + 1));
        }
        i = i + 1;
    }
    proof {
        assert(s@.take(s@.len() as int) =~= s@);
    }
    v
}

/// Renders a path for the status line.
fn format_status_path(p: &Vec<char>) -> (r: String)
    ensures
        r@ == spec_status_path(p@),
{
    let c = count_segments(p);
    if c <= 3 {
        crate::buffer::chars_to_string(p)
    } else {
        let k = find_tail(p);
        let mut s = String::from_str("../");
        let mut i: usize = k;
        proof {
            assert(s@ + p@.subrange(k as int, k as int) =~= s@);
        }
        while i < p.len()
            invariant
                k <= i <= p@.len(),
                s@ == "../"@ + p@.subrange(k as int, i as int),
            decreases p@.len() - i,
        {
            push_char(&mut s, p[i]);
            proof {
                assert(("../"@ + p@.subrange(k as int, i as int)).push(p@[i as int]) =~= "../"@
                    + p@.subrange(k as int, i + 1));
            }
            i = i + 1;
        }
        proof {
            assert(p@.subrange(k as int, p@.len() as int) =~= p@.skip(k as int));
        }
        s
    }
}

/// Mirrors [`digit_char`].
fn digit_char_x(d: u128) -> (r: char)
    requires
        d < 10,
    ensures
        r == digit_char(d as int),
{
    if d == 0 {
        '0'
    } else if d == 1 {
        '1'
    } else if d == 2 {
        '2'
    } else if d == 3 {
        '3'
    } else if d == 4 {
        '4'
    } else if d == 5 {
        '5'
    } else if d == 6 {
        '6'
    } else if d == 7 {
        '7'
    } else if d == 8 {
        '8'
    } else {
        '9'
    }
}

/// Appends the decimal rendering of `n`.
fn push_dec(s: &mut String, n: u128)
    ensures
        final(s)@ == old(s)@ + dec_rep(n as nat),
    decreases n,
{
    if n < 10 {
        push_char(s, digit_char_x(n));
        proof {
            assert(old(s)@.push(digit_char(n as int)) =~= old(s)@ + dec_rep(n as nat));
        }
    } else {
        push_dec(s, n / 10);
        push_char(s, digit_char_x(n % 10));
        proof {
            assert((old(s)@ + dec_rep((n / 10) as nat)).push(digit_char((n % 10) as int))
                =~= old(s)@ + dec_rep(n as nat));
        }
    }
}

/// Renders the cursor 1-based as `line:column`.
fn format_cursor(line: usize, col: usize) -> (r: String)
    ensures
        r@ == spec_cursor_text(line as nat, col as nat),
{
    let mut s = String::new();
    push_dec(&mut s, line as u128 + 1);
    push_char(&mut s, ':');
    push_dec(&mut s, col as u128 + 1);
    proof {
        assert(s@ =~= spec_cursor_text(line as nat, col as nat));
    }
    s
}

/// Picks the extension to highlight as.
fn format_extension(p: &Vec<char>) -> (r: String)
    ensures
        r@ == spec_extension(p@),
{
    let base = base_from_x(p, p.len());
    match dot_from_x(p, p.len(), base) {
        Option::Some(d) => {
            let mut s = String::new();
            let mut i: usize = d + 1;
            proof {
                assert(s@ =~= p@.subrange(d + 1, d + 1));
            }
            while i < p.len()
                invariant
                    d + 1 <= i <= p@.len(),
                    s@ == p@.subrange(d + 1, i as int),
                decreases p@.len() - i,
            {
                push_char(&mut s, p[i]);
                proof {
                    assert(p@.subrange(d + 1, i as int).push(p@[i as int]) =~= p@.subrange(
                        d + 1,
                        i + 1,
                    ));
                }
                i = i + 1;
            }
            proof {
                assert(p@.subrange(d + 1, p@.len() as int) =~= p@.skip(d + 1));
            }
            s
        },
        Option::None => "rs".to_owned(),
    }
}

impl Editor {
    /// Derives the view model: pure, no side effects. Controls are enabled
    /// exactly per the transition guards, the status line shows the
    /// (abbreviated) path and the 1-based cursor position.
    pub fn view_model(&self) -> (vm: ViewModel)
        requires
            self@.wf(),
        ensures
            vm.status_path@ == spec_status_line(self@.file),
            vm.cursor_text@ == spec_cursor_text(
                self@.content.cursor_line(),
                self@.content.cursor_col() as nat,
            ),
            vm.new_enabled == !self@.is_loading,
            vm.open_enabled == !self@.is_loading,
            vm.save_enabled == !self@.is_loading,
            vm.word_wrap == self@.word_wrap,
            vm.theme == self@.theme,
            vm.highlight_extension@ == spec_highlight(self@.file),
    {
        let (line, col) = self.buffer().cursor_position();
        let (status_path, highlight_extension) = match self.file_path() {
            Option::Some(path) => {
                let chars = string_chars(path.as_str());
                (format_status_path(&chars), format_extension(&chars))
            },
            Option::None => ("New File".to_owned(), "rs".to_owned()),
        };
        ViewModel {
            status_path,
            cursor_text: format_cursor(line, col),
            new_enabled: !self.is_loading(),
            open_enabled: !self.is_loading(),
            save_enabled: !self.is_loading(),
            word_wrap: self.word_wrap(),
            theme: self.current_theme(),
            highlight_extension,
        }
    }
}

} // verus!
