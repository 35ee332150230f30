//! The document buffer: text content, cursor, and selection, mutated in place
//! by atomic edit and navigation actions.
//!
//! The buffer is modelled by [`BufModel`]: the text as a sequence of
//! characters, the cursor as a character offset, and the selection as an
//! optional anchor offset (the selection spans anchor..cursor in either
//! order). Every action's effect is given by the transition function
//! [`BufModel::step`], and [`Buffer::apply`] is proved to realise it.

use vstd::prelude::*;
use vstd::string::StrSliceExecFns;

verus! {

/// A cursor movement: by character, word, line bounds, or document bounds.
#[derive(Clone, Copy, Debug, PartialEq, Eq, Structural)]
pub enum Motion {
    Left,
    Right,
    Home,
    End,
    WordLeft,
    WordRight,
    DocumentStart,
    DocumentEnd,
}

/// An atomic action on the buffer. Edit actions change the text; navigation
/// actions only move the cursor or selection.
#[derive(Clone, Debug, PartialEq)]
pub enum Action {
    /// Insert one character at the cursor, replacing any selection.
    Insert(char),
    /// Insert a whole string at the cursor, replacing any selection.
    Paste(String),
    /// Delete the selection, or the character before the cursor.
    Backspace,
    /// Delete the selection, or the character under the cursor.
    Delete,
    /// Move the cursor, dropping any selection.
    Move(Motion),
    /// Move the cursor, extending (or starting) the selection.
    Select(Motion),
    /// Select the given character range, clamped to the text.
    SelectRange(usize, usize),
    /// Select the whole document.
    SelectAll,
}

/// Mathematical model of an [`Action`].
pub enum ActionModel {
    Insert(char),
    Paste(Seq<char>),
    Backspace,
    Delete,
    Move(Motion),
    Select(Motion),
    SelectRange(int, int),
    SelectAll,
}

impl View for Action {
    type V = ActionModel;

    open spec fn view(&self) -> ActionModel {
        match self {
            Action::Insert(c) => ActionModel::Insert(*c),
            Action::Paste(s) => ActionModel::Paste(s@),
            Action::Backspace => ActionModel::Backspace,
            Action::Delete => ActionModel::Delete,
            Action::Move(m) => ActionModel::Move(*m),
            Action::Select(m) => ActionModel::Select(*m),
            Action::SelectRange(a, b) => ActionModel::SelectRange(*a as int, *b as int),
            Action::SelectAll => ActionModel::SelectAll,
        }
    }
}

impl ActionModel {
    /// Only edit actions contribute to dirty-state transitions.
    pub open spec fn is_edit(self) -> bool {
        match self {
            ActionModel::Insert(_) => true,
            ActionModel::Paste(_) => true,
            ActionModel::Backspace => true,
            ActionModel::Delete => true,
            ActionModel::Move(_) => false,
            ActionModel::Select(_) => false,
            ActionModel::SelectRange(_, _) => false,
            ActionModel::SelectAll => false,
        }
    }
}

impl Action {
    /// Whether this action mutates the text (as opposed to only navigating).
    pub fn is_edit(&self) -> (r: bool)
        ensures
            r == self@.is_edit(),
    {
        match self {
            Action::Insert(_) => true,
            Action::Paste(_) => true,
            Action::Backspace => true,
            Action::Delete => true,
            Action::Move(_) => false,
            Action::Select(_) => false,
            Action::SelectRange(_, _) => false,
            Action::SelectAll => false,
        }
    }
}

/// Word motions treat these as separators.
pub open spec fn is_space(c: char) -> bool {
    c == ' ' || c == '\n' || c == '\t' || c == '\r'
}

/// Start of the line containing offset `p`: the nearest offset at or before
/// `p` that is the document start or preceded by a newline.
pub open spec fn line_start(t: Seq<char>, p: int) -> int
    decreases p,
{
    if p <= 0 {
        0
    } else if t[p - 1] == '\n' {
        p
    } else {
        line_start(t, p - 1)
    }
}

/// End of the line containing offset `p`: the nearest offset at or after `p`
/// that is the document end or holds a newline.
pub open spec fn line_end(t: Seq<char>, p: int) -> int
    decreases t.len() - p,
{
    if p < 0 {
        0
    } else if p >= t.len() {
        t.len() as int
    } else if t[p] == '\n' {
        p
    } else {
        line_end(t, p + 1)
    }
}

/// Number of newlines among the first `p` characters: the 0-based line of
/// offset `p`.
pub open spec fn line_of(t: Seq<char>, p: int) -> nat
    decreases p,
{
    if p <= 0 {
        0
    } else {
        line_of(t, p - 1) + (if t[p - 1] == '\n' { 1nat } else { 0nat })
    }
}

/// Skips separators leftwards from `p`.
pub open spec fn skip_space_left(t: Seq<char>, p: int) -> int
    decreases p,
{
    if p > 0 && p <= t.len() && is_space(t[p - 1]) {
        skip_space_left(t, p - 1)
    } else {
        p
    }
}

/// Skips word characters leftwards from `p`.
pub open spec fn skip_word_left(t: Seq<char>, p: int) -> int
    decreases p,
{
    if p > 0 && p <= t.len() && !is_space(t[p - 1]) {
        skip_word_left(t, p - 1)
    } else {
        p
    }
}

/// Skips separators rightwards from `p`.
pub open spec fn skip_space_right(t: Seq<char>, p: int) -> int
    decreases t.len() - p,
{
    if 0 <= p && p < t.len() && is_space(t[p]) {
        skip_space_right(t, p + 1)
    } else {
        p
    }
}

/// Skips word characters rightwards from `p`.
pub open spec fn skip_word_right(t: Seq<char>, p: int) -> int
    decreases t.len() - p,
{
    if 0 <= p && p < t.len() && !is_space(t[p]) {
        skip_word_right(t, p + 1)
    } else {
        p
    }
}

/// Where a motion lands, starting from offset `p` in text `t`.
pub open spec fn motion_target(t: Seq<char>, p: int, m: Motion) -> int {
    match m {
        Motion::Left => if p > 0 { p - 1 } else { 0 },
        Motion::Right => if p < t.len() { p + 1 } else { t.len() as int },
        Motion::Home => line_start(t, p),
        Motion::End => line_end(t, p),
        Motion::WordLeft => skip_word_left(t, skip_space_left(t, p)),
        Motion::WordRight => skip_word_right(t, skip_space_right(t, p)),
        Motion::DocumentStart => 0,
        Motion::DocumentEnd => t.len() as int,
    }
}

/// `t` with the range `lo..hi` replaced by `ins`.
pub open spec fn splice(t: Seq<char>, lo: int, hi: int, ins: Seq<char>) -> Seq<char> {
    t.subrange(0, lo) + ins + t.subrange(hi, t.len() as int)
}

/// Mathematical model of a [`Buffer`].
#[verifier::ext_equal]
pub struct BufModel {
    /// The full text, one element per character.
    pub text: Seq<char>,
    /// Character offset of the cursor, between `0` and `text.len()`.
    pub cursor: int,
    /// Selection anchor; the selection spans anchor and cursor in either
    /// order, and is inactive when absent or equal to the cursor.
    pub anchor: Option<int>,
}

impl BufModel {
    /// Cursor and anchor address positions inside the text.
    pub open spec fn wf(self) -> bool {
        &&& 0 <= self.cursor <= self.text.len()
        &&& match self.anchor {
            Option::Some(a) => 0 <= a <= self.text.len(),
            Option::None => true,
        }
    }

    /// The empty document.
    pub open spec fn init() -> BufModel {
        BufModel { text: Seq::empty(), cursor: 0, anchor: Option::None }
    }

    /// A non-empty selection is active.
    pub open spec fn has_selection(self) -> bool {
        match self.anchor {
            Option::Some(a) => a != self.cursor,
            Option::None => false,
        }
    }

    /// Ordered endpoints of the active selection, or the cursor twice.
    pub open spec fn sel_bounds(self) -> (int, int) {
        match self.anchor {
            Option::Some(a) => if a <= self.cursor {
                (a, self.cursor)
            } else {
                (self.cursor, a)
            },
            Option::None => (self.cursor, self.cursor),
        }
    }

    /// The selected text, when a non-empty selection is active.
    pub open spec fn selected(self) -> Option<Seq<char>> {
        if self.has_selection() {
            Option::Some(self.text.subrange(self.sel_bounds().0, self.sel_bounds().1))
        } else {
            Option::None
        }
    }

    /// 0-based line of the cursor.
    pub open spec fn cursor_line(self) -> nat {
        line_of(self.text, self.cursor)
    }

    /// 0-based column of the cursor: its distance from its line's start.
    pub open spec fn cursor_col(self) -> int {
        self.cursor - line_start(self.text, self.cursor)
    }

    /// The effect of one action: the whole behaviour of the buffer.
    pub open spec fn step(self, a: ActionModel) -> BufModel {
        let (lo, hi) = self.sel_bounds();
        match a {
            ActionModel::Insert(c) => BufModel {
                text: splice(self.text, lo, hi, seq![c]),
                cursor: lo + 1,
                anchor: Option::None,
            },
            ActionModel::Paste(s) => BufModel {
                text: splice(self.text, lo, hi, s),
                cursor: lo + s.len(),
                anchor: Option::None,
            },
            ActionModel::Backspace => if self.has_selection() {
                BufModel { text: splice(self.text, lo, hi, Seq::empty()), cursor: lo, anchor: Option::None }
            } else if self.cursor > 0 {
                BufModel {
                    text: splice(self.text, self.cursor - 1, self.cursor, Seq::empty()),
                    cursor: self.cursor - 1,
                    anchor: Option::None,
                }
            } else {
                BufModel { anchor: Option::None, ..self }
            },
            ActionModel::Delete => if self.has_selection() {
                BufModel { text: splice(self.text, lo, hi, Seq::empty()), cursor: lo, anchor: Option::None }
            } else if self.cursor < self.text.len() {
                BufModel {
                    text: splice(self.text, self.cursor, self.cursor + 1, Seq::empty()),
                    anchor: Option::None,
                    ..self
                }
            } else {
                BufModel { anchor: Option::None, ..self }
            },
            ActionModel::Move(m) => BufModel {
                cursor: motion_target(self.text, self.cursor, m),
                anchor: Option::None,
                ..self
            },
            ActionModel::Select(m) => BufModel {
                cursor: motion_target(self.text, self.cursor, m),
                anchor: Option::Some(match self.anchor {
                    Option::Some(a) => a,
                    Option::None => self.cursor,
                }),
                ..self
            },
            ActionModel::SelectRange(a, b) => BufModel {
                cursor: if b <= self.text.len() { b } else { self.text.len() as int },
                anchor: Option::Some(if a <= self.text.len() { a } else { self.text.len() as int }),
                ..self
            },
            ActionModel::SelectAll => BufModel {
                cursor: self.text.len() as int,
                anchor: Option::Some(0),
                ..self
            },
        }
    }
}

/// The document buffer: exclusively owned by the controller, mutated only
/// through [`Buffer::apply`] and [`Buffer::replace_all`].
#[derive(Debug)]
pub struct Buffer {
    text: Vec<char>,
    cursor: usize,
    anchor: Option<usize>,
}

impl View for Buffer {
    type V = BufModel;

    closed spec fn view(&self) -> BufModel {
        BufModel {
            text: self.text@,
            cursor: self.cursor as int,
            anchor: match self.anchor {
                Option::Some(a) => Option::Some(a as int),
                Option::None => Option::None,
            },
        }
    }
}

/// Appends one character to a string.
///
/// Relies on `String::push` from std: it appends exactly the given character.
#[verifier::external_body]
pub(crate) fn push_char(s: &mut String, c: char)
    ensures
        final(s)@ == old(s)@.push(c),
{
    s.push(c);
}

/// Renders a character vector as a string.
pub(crate) fn chars_to_string(v: &Vec<char>) -> (r: String)
    ensures
        r@ == v@,
{
    let mut r = String::new();
    let mut i: usize = 0;
    proof {
        assert(r@ =~= v@.take(0));
    }
    while i < v.len()
        invariant
            i <= v.len(),
            r@ == v@.take(i as int),
        decreases v.len() - i,
    {
        push_char(&mut r, v[i]);
        proof {
            assert(v@.take(i as int).push(v@[i as int]) =~= v@.take(i + 1));
        }
        i = i + 1;
    }
    proof {
        assert(v@.take(v@.len() as int) =~= v@);
    }
    r
}

/// Builds `t` with the range `lo..hi` replaced by `ins`.
fn splice_vec(t: &Vec<char>, lo: usize, hi: usize, ins: &Vec<char>) -> (r: Vec<char>)
    requires
        lo <= hi <= t@.len(),
    ensures
        r@ == splice(t@, lo as int, hi as int, ins@),
{
    let mut r: Vec<char> = Vec::new();
    let mut i: usize = 0;
    proof {
        assert(r@ =~= t@.take(0));
    }
    while i < lo
        invariant
            i <= lo <= t@.len(),
            r@ == t@.take(i as int),
        decreases lo - i,
    {
        r.push(t[i]);
        proof {
            assert(t@.take(i as int).push(t@[i as int]) =~= t@.take(i + 1));
        }
        i = i + 1;
    }
    let mut j: usize = 0;
    proof {
        assert(t@.take(lo as int) + ins@.take(0) =~= t@.take(lo as int));
    }
    while j < ins.len()
        invariant
            j <= ins@.len(),
            lo <= t@.len(),
            r@ == t@.take(lo as int) + ins@.take(j as int),
        decreases ins.len() - j,
    {
        r.push(ins[j]);
        proof {
            assert((t@.take(lo as int) + ins@.take(j as int)).push(ins@[j as int]) =~= t@.take(
                lo as int,
            ) + ins@.take(j + 1));
        }
        j = j + 1;
    }
    let mut k: usize = hi;
    proof {
        assert(ins@.take(ins@.len() as int) =~= ins@);
        assert(t@.take(lo as int) + ins@ + t@.subrange(hi as int, hi as int) =~= t@.take(
            lo as int,
        ) + ins@);
    }
    while k < t.len()
        invariant
            hi <= k <= t@.len(),
            r@ == t@.take(lo as int) + ins@ + t@.subrange(hi as int, k as int),
        decreases t.len() - k,
    {
        r.push(t[k]);
        proof {
            assert((t@.take(lo as int) + ins@ + t@.subrange(hi as int, k as int)).push(
                t@[k as int],
            ) =~= t@.take(lo as int) + ins@ + t@.subrange(hi as int, k + 1));
        }
        k = k + 1;
    }
    proof {
        assert(ins@.take(ins@.len() as int) =~= ins@);
        assert(t@.take(lo as int) == t@.subrange(0, lo as int));
        assert(r@ =~= splice(t@, lo as int, hi as int, ins@));
    }
    r
}

/// Mirrors [`line_start`].
fn line_start_x(t: &Vec<char>, p: usize) -> (r: usize)
    requires
        p <= t@.len(),
    ensures
        r == line_start(t@, p as int),
        r <= p,
    decreases p,
{
    if p == 0 {
        0
    } else if t[p - 1] == '\n' {
        p
    } else {
        line_start_x(t, p - 1)
    }
}

/// Mirrors [`line_end`].
fn line_end_x(t: &Vec<char>, p: usize) -> (r: usize)
    requires
        p <= t@.len(),
    ensures
        r == line_end(t@, p as int),
        p <= r <= t@.len(),
    decreases t@.len() - p,
{
    if p >= t.len() {
        t.len()
    } else if t[p] == '\n' {
        p
    } else {
        line_end_x(t, p + 1)
    }
}

/// Whether word motions skip this character.
fn is_space_x(c: char) -> (r: bool)
    ensures
        r == is_space(c),
{
    c == ' ' || c == '\n' || c == '\t' || c == '\r'
}

/// Mirrors [`skip_space_left`].
fn skip_space_left_x(t: &Vec<char>, p: usize) -> (r: usize)
    requires
        p <= t@.len(),
    ensures
        r == skip_space_left(t@, p as int),
        r <= p,
    decreases p,
{
    if p > 0 && is_space_x(t[p - 1]) {
        skip_space_left_x(t, p - 1)
    } else {
        p
    }
}

/// Mirrors [`skip_word_left`].
fn skip_word_left_x(t: &Vec<char>, p: usize) -> (r: usize)
    requires
        p <= t@.len(),
    ensures
        r == skip_word_left(t@, p as int),
        r <= p,
    decreases p,
{
    if p > 0 && !is_space_x(t[p - 1]) {
        skip_word_left_x(t, p - 1)
    } else {
        p
    }
}

/// Mirrors [`skip_space_right`].
fn skip_space_right_x(t: &Vec<char>, p: usize) -> (r: usize)
    requires
        p <= t@.len(),
    ensures
        r == skip_space_right(t@, p as int),
        p <= r <= t@.len(),
    decreases t@.len() - p,
{
    if p < t.len() && is_space_x(t[p]) {
        skip_space_right_x(t, p + 1)
    } else {
        p
    }
}

/// Mirrors [`skip_word_right`].
fn skip_word_right_x(t: &Vec<char>, p: usize) -> (r: usize)
    requires
        p <= t@.len(),
    ensures
        r == skip_word_right(t@, p as int),
        p <= r <= t@.len(),
    decreases t@.len() - p,
{
    if p < t.len() && !is_space_x(t[p]) {
        skip_word_right_x(t, p + 1)
    } else {
        p
    }
}

/// Mirrors [`motion_target`].
fn motion_target_x(t: &Vec<char>, p: usize, m: Motion) -> (r: usize)
    requires
        p <= t@.len(),
    ensures
        r == motion_target(t@, p as int, m),
        r <= t@.len(),
{
    match m {
        Motion::Left => if p > 0 { p - 1 } else { 0 },
        Motion::Right => if p < t.len() { p + 1 } else { t.len() },
        Motion::Home => line_start_x(t, p),
        Motion::End => line_end_x(t, p),
        Motion::WordLeft => skip_word_left_x(t, skip_space_left_x(t, p)),
        Motion::WordRight => skip_word_right_x(t, skip_space_right_x(t, p)),
        Motion::DocumentStart => 0,
        Motion::DocumentEnd => t.len(),
    }
}

impl Buffer {
    /// Creates the empty document.
    pub fn new() -> (r: Buffer)
        ensures
            r@ == BufModel::init(),
            r@.wf(),
    {
        let r = Buffer { text: Vec::new(), cursor: 0, anchor: Option::None };
        proof {
            assert(r@ =~= BufModel::init());
        }
        r
    }

    /// Ordered selection bounds, or the cursor twice.
    fn sel_bounds_x(&self) -> (r: (usize, usize))
        requires
            self@.wf(),
        ensures
            (r.0 as int, r.1 as int) == self@.sel_bounds(),
            r.0 <= r.1 <= self@.text.len(),
    {
        match self.anchor {
            Option::Some(a) => if a <= self.cursor {
                (a, self.cursor)
            } else {
                (self.cursor, a)
            },
            Option::None => (self.cursor, self.cursor),
        }
    }

    /// Applies one action; never fails. The new state is exactly
    /// [`BufModel::step`] of the old.
    pub fn apply(&mut self, a: &Action)
        requires
            old(self)@.wf(),
        ensures
            final(self)@ == old(self)@.step(a@),
            final(self)@.wf(),
    {
        let ghost pre = self@;
        match a {
            Action::Insert(c) => {
                let (lo, hi) = self.sel_bounds_x();
                let mut ins: Vec<char> = Vec::new();
                ins.push(*c);
                proof {
                    assert(ins@ =~= seq![*c]);
                }
                let new_text = splice_vec(&self.text, lo, hi, &ins);
                let n = new_text.len();
                proof {
                    assert(new_text@.len() == lo + 1 + (pre.text.len() - hi));
                    assert(lo < n);
                }
                self.text = new_text;
                self.cursor = lo + 1;
                self.anchor = Option::None;
                proof {
                    assert(self@ =~= pre.step(a@));
                }
            },
            Action::Paste(s) => {
                let (lo, hi) = self.sel_bounds_x();
                let mut ins: Vec<char> = Vec::new();
                let n = s.unicode_len();
                let mut i: usize = 0;
                proof {
                    assert(ins@ =~= s@.take(0));
                }
                while i < n
                    invariant
                        i <= n,
                        n == s@.len(),
                        ins@ == s@.take(i as int),
                    decreases n - i,
                {
                    ins.push(s.get_char(i));
                    proof {
                        assert(s@.take(i as int).push(s@[i as int]) =~= s@.take(i + 1));
                    }
                    i = i + 1;
                }
                proof {
                    assert(ins@ =~= s@);
                }
                let new_text = splice_vec(&self.text, lo, hi, &ins);
                let m = new_text.len();
                proof {
                    assert(new_text@.len() == lo + s@.len() + (pre.text.len() - hi));
                    assert(lo + n <= m);
                }
                self.text = new_text;
                self.cursor = lo + n;
                self.anchor = Option::None;
                proof {
                    assert(self@ =~= pre.step(a@));
                }
            },
            Action::Backspace => {
                let (lo, hi) = self.sel_bounds_x();
                let empty: Vec<char> = Vec::new();
                if lo != hi {
                    self.text = splice_vec(&self.text, lo, hi, &empty);
                    self.cursor = lo;
                    self.anchor = Option::None;
                } else if self.cursor > 0 {
                    self.text = splice_vec(&self.text, self.cursor - 1, self.cursor, &empty);
                    self.cursor = self.cursor - 1;
                    self.anchor = Option::None;
                } else {
                    self.anchor = Option::None;
                }
                proof {
                    assert(self@ =~= pre.step(a@));
                }
            },
            Action::Delete => {
                let (lo, hi) = self.sel_bounds_x();
                let empty: Vec<char> = Vec::new();
                if lo != hi {
                    self.text = splice_vec(&self.text, lo, hi, &empty);
                    self.cursor = lo;
                    self.anchor = Option::None;
                } else if self.cursor < self.text.len() {
                    self.text = splice_vec(&self.text, self.cursor, self.cursor + 1, &empty);
                    self.anchor = Option::None;
                } else {
                    self.anchor = Option::None;
                }
                proof {
                    assert(self@ =~= pre.step(a@));
                }
            },
            Action::Move(m) => {
                self.cursor = motion_target_x(&self.text, self.cursor, *m);
                self.anchor = Option::None;
                proof {
                    assert(self@ =~= pre.step(a@));
                }
            },
            Action::Select(m) => {
                let a0 = match self.anchor {
                    Option::Some(a) => a,
                    Option::None => self.cursor,
                };
                self.cursor = motion_target_x(&self.text, self.cursor, *m);
                self.anchor = Option::Some(a0);
                proof {
                    assert(self@ =~= pre.step(a@));
                }
            },
            Action::SelectRange(a0, b0) => {
                let len = self.text.len();
                self.anchor = Option::Some(if *a0 <= len { *a0 } else { len });
                self.cursor = if *b0 <= len { *b0 } else { len };
                proof {
                    assert(self@ =~= pre.step(a@));
                }
            },
            Action::SelectAll => {
                self.anchor = Option::Some(0);
                self.cursor = self.text.len();
                proof {
                    assert(self@ =~= pre.step(a@));
                }
            },
        }
    }

    /// Discards text, cursor, and selection for the given text, with the
    /// cursor at the document start. Used only on successful load.
    pub fn replace_all(&mut self, new_text: &str)
        ensures
            final(self)@ == (BufModel { text: new_text@, cursor: 0, anchor: Option::None }),
            final(self)@.wf(),
    {
        let n = new_text.unicode_len();
        let mut v: Vec<char> = Vec::new();
        let mut i: usize = 0;
        proof {
            assert(v@ =~= new_text@.take(0));
        }
        while i < n
            invariant
                i <= n,
                n == new_text@.len(),
                v@ == new_text@.take(i as int),
            decreases n - i,
        {
            v.push(new_text.get_char(i));
            proof {
                assert(new_text@.take(i as int).push(new_text@[i as int]) =~= new_text@.take(
                    i + 1,
                ));
            }
            i = i + 1;
        }
        proof {
            assert(v@ =~= new_text@);
        }
        self.text = v;
        self.cursor = 0;
        self.anchor = Option::None;
        proof {
            assert(self@ =~= (BufModel { text: new_text@, cursor: 0, anchor: Option::None }));
        }
    }

    /// The full content as one string.
    pub fn text(&self) -> (r: String)
        ensures
            r@ == self@.text,
    {
        chars_to_string(&self.text)
    }

    /// The full content as a character vector.
    pub fn text_chars(&self) -> (r: Vec<char>)
        ensures
            r@ == self@.text,
    {
        let mut r: Vec<char> = Vec::new();
        let mut i: usize = 0;
        proof {
            assert(r@ =~= self.text@.take(0));
        }
        while i < self.text.len()
            invariant
                i <= self.text@.len(),
                r@ == self.text@.take(i as int),
        decreases self.text@.len() - i,
        {
            r.push(self.text[i]);
            proof {
                assert(self.text@.take(i as int).push(self.text@[i as int]) =~= self.text@.take(
                    i + 1,
                ));
            }
            i = i + 1;
        }
        proof {
            assert(self.text@.take(self.text@.len() as int) =~= self.text@);
        }
        r
    }

    /// 0-based cursor position as (line, column).
    pub fn cursor_position(&self) -> (r: (usize, usize))
        requires
            self@.wf(),
        ensures
            r.0 == self@.cursor_line(),
            r.1 == self@.cursor_col(),
    {
        let mut i: usize = 0;
        let mut line: usize = 0;
        let mut start: usize = 0;
        while i < self.cursor
            invariant
                i <= self.cursor <= self.text@.len(),
                line == line_of(self.text@, i as int),
                line <= i,
                start == line_start(self.text@, i as int),
                start <= i,
            decreases self.cursor - i,
        {
            if self.text[i] == '\n' {
                line = line + 1;
                start = i + 1;
            }
            i = i + 1;
        }
        (line, self.cursor - start)
    }

    /// The selected substring, when a non-empty selection is active.
    pub fn selected_text(&self) -> (r: Option<String>)
        requires
            self@.wf(),
        ensures
            match r {
                Option::Some(s) => self@.selected() == Option::Some(s@),
                Option::None => self@.selected() is None,
            },
    {
        match self.selected_chars() {
            Option::Some(v) => Option::Some(chars_to_string(&v)),
            Option::None => Option::None,
        }
    }

    /// The selected characters, when a non-empty selection is active.
    pub fn selected_chars(&self) -> (r: Option<Vec<char>>)
        requires
            self@.wf(),
        ensures
            match r {
                Option::Some(v) => self@.selected() == Option::Some(v@),
                Option::None => self@.selected() is None,
            },
    {
        let (lo, hi) = self.sel_bounds_x();
        if lo == hi {
            return Option::None;
        }
        let mut v: Vec<char> = Vec::new();
        let mut i: usize = lo;
        proof {
            assert(v@ =~= self.text@.subrange(lo as int, lo as int));
        }
        while i < hi
            invariant
                lo <= i <= hi <= self.text@.len(),
                v@ == self.text@.subrange(lo as int, i as int),
            decreases hi - i,
        {
            v.push(self.text[i]);
            proof {
                assert(self.text@.subrange(lo as int, i as int).push(self.text@[i as int])
                    =~= self.text@.subrange(lo as int, i + 1));
            }
            i = i + 1;
        }
        Option::Some(v)
    }
}

} // verus!
