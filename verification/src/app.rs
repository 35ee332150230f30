//! The editor controller: one document buffer plus session state, driven by
//! a strict update protocol.
//!
//! Every transition is the pure function [`EditorModel::step`] of the current
//! state and the incoming message; [`Editor::update`] is proved to realise
//! it. A single `is_loading` flag is the mutual-exclusion guard over the one
//! slot for an in-flight I/O command: load and save intents arriving while it
//! is set are dropped.

use vstd::prelude::*;

use crate::buffer::{chars_to_string, BufModel, Buffer};
use crate::message::{Command, CommandModel, Message, MessageModel};
use crate::theme::{Appearance, Theme};

verus! {

/// `suf` is a suffix of `t`.
pub open spec fn is_suffix(suf: Seq<char>, t: Seq<char>) -> bool {
    suf.len() <= t.len() && t.subrange(t.len() - suf.len(), t.len() as int) == suf
}

/// Mathematical model of an [`Editor`]: the session state over the buffer
/// model, with the path as a character sequence.
#[verifier::ext_equal]
pub struct EditorModel {
    /// Current file path; absent means "untitled, never saved".
    pub file: Option<Seq<char>>,
    /// The document buffer.
    pub content: BufModel,
    /// The selected highlighting palette.
    pub theme: Theme,
    /// True for the whole span between issuing an I/O command and receiving
    /// its completion; gates new load/save intents.
    pub is_loading: bool,
    /// True iff the buffer was mutated by an edit action since the last
    /// successful load or save.
    pub is_dirty: bool,
    /// Word-wrap display preference, orthogonal to persistence.
    pub word_wrap: bool,
}

impl EditorModel {
    /// The buffer addresses valid positions.
    pub open spec fn wf(self) -> bool {
        self.content.wf()
    }

    /// The state at session start: an empty untitled document, busy with the
    /// initial load of a default document.
    pub open spec fn init() -> EditorModel {
        EditorModel {
            file: Option::None,
            content: BufModel::init(),
            theme: Theme::Base16Ocean,
            is_loading: true,
            is_dirty: false,
            word_wrap: true,
        }
    }

    /// The text a save command persists: the buffer text, extended by the
    /// selected text when that is not already a suffix of it.
    pub open spec fn save_text(self) -> Seq<char> {
        match self.content.selected() {
            Option::Some(sel) => if is_suffix(sel, self.content.text) {
                self.content.text
            } else {
                self.content.text + sel
            },
            Option::None => self.content.text,
        }
    }

    /// The transition function: the new state and the command issued, for
    /// each message in each state.
    pub open spec fn step(self, m: MessageModel) -> (EditorModel, CommandModel) {
        match m {
            MessageModel::ActionPerformed(a) => (
                EditorModel {
                    is_dirty: self.is_dirty || a.is_edit(),
                    content: self.content.step(a),
                    ..self
                },
                CommandModel::Nothing,
            ),
            MessageModel::NewFile => if !self.is_loading {
                (
                    EditorModel { content: BufModel::init(), file: Option::None, ..self },
                    CommandModel::Nothing,
                )
            } else {
                (self, CommandModel::Nothing)
            },
            MessageModel::OpenFile => if self.is_loading {
                (self, CommandModel::Nothing)
            } else {
                (EditorModel { is_loading: true, ..self }, CommandModel::PickAndLoad)
            },
            MessageModel::FileOpened(r) => match r {
                Result::Ok((path, contents)) => (
                    EditorModel {
                        is_loading: false,
                        is_dirty: false,
                        file: Option::Some(path),
                        content: BufModel { text: contents, cursor: 0, anchor: Option::None },
                        ..self
                    },
                    CommandModel::Nothing,
                ),
                Result::Err(_) => (
                    EditorModel { is_loading: false, is_dirty: false, ..self },
                    CommandModel::Nothing,
                ),
            },
            MessageModel::SaveFile => if self.is_loading {
                (self, CommandModel::Nothing)
            } else {
                (
                    EditorModel { is_loading: true, ..self },
                    CommandModel::Save(self.file, self.save_text()),
                )
            },
            MessageModel::FileSaved(r) => match r {
                Result::Ok(path) => (
                    EditorModel {
                        is_loading: false,
                        is_dirty: false,
                        file: Option::Some(path),
                        ..self
                    },
                    CommandModel::Nothing,
                ),
                Result::Err(_) => (
                    EditorModel { is_loading: false, ..self },
                    CommandModel::Nothing,
                ),
            },
            MessageModel::ThemeSelected(t) => (
                EditorModel { theme: t, ..self },
                CommandModel::Nothing,
            ),
            MessageModel::WordWrapToggled(w) => (
                EditorModel { word_wrap: w, ..self },
                CommandModel::Nothing,
            ),
        }
    }
}

/// The editor controller. All state lives here; transitions go through
/// [`Editor::update`] alone.
#[derive(Debug)]
pub struct Editor {
    file: Option<String>,
    content: Buffer,
    theme: Theme,
    is_loading: bool,
    is_dirty: bool,
    word_wrap: bool,
}

impl View for Editor {
    type V = EditorModel;

    closed spec fn view(&self) -> EditorModel {
        EditorModel {
            file: match &self.file {
                Option::Some(p) => Option::Some(p@),
                Option::None => Option::None,
            },
            content: self.content@,
            theme: self.theme,
            is_loading: self.is_loading,
            is_dirty: self.is_dirty,
            word_wrap: self.word_wrap,
        }
    }
}

/// Whether `t` ends with `suf`, by characters.
fn ends_with(t: &Vec<char>, suf: &Vec<char>) -> (r: bool)
    ensures
        r == is_suffix(suf@, t@),
{
    if suf.len() > t.len() {
        return false;
    }
    let off = t.len() - suf.len();
    let mut i: usize = 0;
    while i < suf.len()
        invariant
            off == t@.len() - suf@.len(),
            i <= suf@.len() <= t@.len(),
            t@.len() <= usize::MAX,
            forall|j: int| 0 <= j < i ==> t@[off + j] == suf@[j],
        decreases suf.len() - i,
    {
        if t[off + i] != suf[i] {
            proof {
                assert(t@.subrange(off as int, t@.len() as int)[i as int] != suf@[i as int]);
            }
            return false;
        }
        i = i + 1;
    }
    proof {
        assert(t@.subrange(off as int, t@.len() as int) =~= suf@);
    }
    true
}

impl Editor {
    /// Creates the session state and the one automatic command: a load of
    /// the given built-in default document path.
    pub fn new(default_path: String) -> (r: (Editor, Command))
        ensures
            r.0@ == EditorModel::init(),
            r.0@.wf(),
            r.1@ == CommandModel::Load(default_path@),
    {
        let e = Editor {
            file: Option::None,
            content: Buffer::new(),
            theme: Theme::Base16Ocean,
            is_loading: true,
            is_dirty: false,
            word_wrap: true,
        };
        proof {
            assert(e@ =~= EditorModel::init());
        }
        (e, Command::Load(default_path))
    }

    /// Folds one message into the state and returns the command to perform,
    /// exactly as [`EditorModel::step`] prescribes.
    pub fn update(&mut self, message: Message) -> (cmd: Command)
        requires
            old(self)@.wf(),
        ensures
            final(self)@.wf(),
            final(self)@ == old(self)@.step(message@).0,
            cmd@ == old(self)@.step(message@).1,
    {
        let ghost pre = self@;
        match message {
            Message::ActionPerformed(action) => {
                self.is_dirty = self.is_dirty || action.is_edit();
                self.content.apply(&action);
                proof {
                    assert(self@ =~= pre.step(message@).0);
                }
                Command::Nothing
            },
            Message::NewFile => {
                if !self.is_loading {
                    self.content = Buffer::new();
                    self.file = Option::None;
                }
                proof {
                    assert(self@ =~= pre.step(message@).0);
                }
                Command::Nothing
            },
            Message::OpenFile => {
                if self.is_loading {
                    proof {
                        assert(self@ =~= pre.step(message@).0);
                    }
                    Command::Nothing
                } else {
                    self.is_loading = true;
                    proof {
                        assert(self@ =~= pre.step(message@).0);
                    }
                    Command::PickAndLoad
                }
            },
            Message::FileOpened(result) => {
                self.is_loading = false;
                self.is_dirty = false;
                if let Result::Ok((path, contents)) = result {
                    self.content.replace_all(contents.as_str());
                    self.file = Option::Some(path);
                }
                proof {
                    assert(self@ =~= pre.step(message@).0);
                }
                Command::Nothing
            },
            Message::SaveFile => {
                if self.is_loading {
                    proof {
                        assert(self@ =~= pre.step(message@).0);
                    }
                    Command::Nothing
                } else {
                    self.is_loading = true;
                    let mut chars = self.content.text_chars();
                    if let Option::Some(sel) = self.content.selected_chars() {
                        if !ends_with(&chars, &sel) {
                            let mut j: usize = 0;
                            while j < sel.len()
                                invariant
                                    j <= sel@.len(),
                                    chars@ == pre.content.text + sel@.take(j as int),
                                decreases sel.len() - j,
                            {
                                chars.push(sel[j]);
                                proof {
                                    assert((pre.content.text + sel@.take(j as int)).push(
                                        sel@[j as int],
                                    ) =~= pre.content.text + sel@.take(j + 1));
                                }
                                j = j + 1;
                            }
                            proof {
                                assert(sel@.take(sel@.len() as int) =~= sel@);
                            }
                        }
                    }
                    proof {
                        assert(chars@ == pre.save_text());
                        assert(self@ =~= pre.step(message@).0);
                    }
                    let text = chars_to_string(&chars);
                    let file = match &self.file {
                        Option::Some(p) => Option::Some(p.clone()),
                        Option::None => Option::None,
                    };
                    let cmd = Command::Save(file, text);
                    proof {
                        assert(cmd@ =~= pre.step(message@).1);
                    }
                    cmd
                }
            },
            Message::FileSaved(result) => {
                self.is_loading = false;
                if let Result::Ok(path) = result {
                    self.file = Option::Some(path);
                    self.is_dirty = false;
                }
                proof {
                    assert(self@ =~= pre.step(message@).0);
                }
                Command::Nothing
            },
            Message::ThemeSelected(theme) => {
                self.theme = theme;
                proof {
                    assert(self@ =~= pre.step(message@).0);
                }
                Command::Nothing
            },
            Message::WordWrapToggled(toggled) => {
                self.word_wrap = toggled;
                proof {
                    assert(self@ =~= pre.step(message@).0);
                }
                Command::Nothing
            },
        }
    }

    /// The overall appearance the selected palette implies.
    pub fn theme(&self) -> (r: Appearance)
        ensures
            r == (if self@.theme.spec_is_dark() {
                Appearance::Dark
            } else {
                Appearance::Light
            }),
    {
        if self.theme.is_dark() {
            Appearance::Dark
        } else {
            Appearance::Light
        }
    }

    /// Read-only access to the document buffer.
    pub fn buffer(&self) -> (r: &Buffer)
        ensures
            r@ == self@.content,
    {
        &self.content
    }

    /// The current file path, when the document has one.
    pub fn file_path(&self) -> (r: Option<String>)
        ensures
            match r {
                Option::Some(p) => self@.file == Option::Some(p@),
                Option::None => self@.file is None,
            },
    {
        match &self.file {
            Option::Some(p) => Option::Some(p.clone()),
            Option::None => Option::None,
        }
    }

    /// Whether an I/O command is outstanding.
    pub fn is_loading(&self) -> (r: bool)
        ensures
            r == self@.is_loading,
    {
        self.is_loading
    }

    /// Whether the buffer has edits not yet persisted.
    pub fn is_dirty(&self) -> (r: bool)
        ensures
            r == self@.is_dirty,
    {
        self.is_dirty
    }

    /// The word-wrap display preference.
    pub fn word_wrap(&self) -> (r: bool)
        ensures
            r == self@.word_wrap,
    {
        self.word_wrap
    }

    /// The selected highlighting palette.
    pub fn current_theme(&self) -> (r: Theme)
        ensures
            r == self@.theme,
    {
        self.theme
    }
}

/// The keybinding override, consulted before default bindings: a save
/// shortcut on Ctrl+S, nothing else.
pub fn key_binding(key: char, ctrl: bool) -> (r: Option<Message>)
    ensures
        ctrl && key == 's' ==> r == Option::Some(Message::SaveFile),
        !(ctrl && key == 's') ==> r is None,
{
    if ctrl && key == 's' {
        Option::Some(Message::SaveFile)
    } else {
        Option::None
    }
}

} // verus!
