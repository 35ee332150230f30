use editor::app::{key_binding, Editor};
use editor::buffer::{Action, Motion};
use editor::error::{Error, IoErrorKind};
use editor::message::{Command, Message};
use editor::theme::{Appearance, Theme};

fn fresh() -> (Editor, Command) {
    Editor::new("default.rs".to_string())
}

/// An editor whose automatic initial load has already failed: idle, clean,
/// untitled.
fn idle() -> Editor {
    let (mut ed, _) = fresh();
    let cmd = ed.update(Message::FileOpened(Err(Error::Generic(
        "no default document".to_string(),
    ))));
    assert_eq!(cmd, Command::Nothing);
    ed
}

fn type_str(ed: &mut Editor, s: &str) {
    for c in s.chars() {
        let cmd = ed.update(Message::ActionPerformed(Action::Insert(c)));
        assert_eq!(cmd, Command::Nothing);
    }
}

#[test]
fn new_session_is_busy_with_initial_load() {
    let (ed, cmd) = fresh();
    assert!(ed.is_loading());
    assert!(!ed.is_dirty());
    assert_eq!(ed.file_path(), None);
    assert!(ed.word_wrap());
    assert_eq!(ed.current_theme(), Theme::Base16Ocean);
    assert_eq!(cmd, Command::Load("default.rs".to_string()));
}

#[test]
fn scenario_new_document_then_typing() {
    let mut ed = idle();
    let cmd = ed.update(Message::NewFile);
    assert_eq!(cmd, Command::Nothing);
    type_str(&mut ed, "hello");
    assert!(ed.is_dirty());
    assert_eq!(ed.file_path(), None);
    assert_eq!(ed.buffer().text(), "hello");
}

#[test]
fn scenario_open_file_succeeds() {
    let mut ed = idle();
    let cmd = ed.update(Message::OpenFile);
    assert_eq!(cmd, Command::PickAndLoad);
    assert!(ed.is_loading());
    let cmd = ed.update(Message::FileOpened(Ok((
        "/tmp/a.rs".to_string(),
        "fn main(){}".to_string(),
    ))));
    assert_eq!(cmd, Command::Nothing);
    assert_eq!(ed.buffer().text(), "fn main(){}");
    assert!(!ed.is_dirty());
    assert!(!ed.is_loading());
    assert_eq!(ed.file_path(), Some("/tmp/a.rs".to_string()));
}

#[test]
fn scenario_save_during_load_is_dropped() {
    let (mut ed, _) = fresh();
    assert!(ed.is_loading());
    type_str(&mut ed, "unsaved");
    assert!(ed.is_dirty());
    let cmd = ed.update(Message::SaveFile);
    assert_eq!(cmd, Command::Nothing);
    assert!(ed.is_loading());
    let cmd = ed.update(Message::FileOpened(Err(Error::DialogueClosed)));
    assert_eq!(cmd, Command::Nothing);
    assert!(!ed.is_loading());
}

#[test]
fn scenario_save_dialogue_closed() {
    let mut ed = idle();
    type_str(&mut ed, "draft");
    assert!(ed.is_dirty());
    let cmd = ed.update(Message::SaveFile);
    assert_eq!(cmd, Command::Save(None, "draft".to_string()));
    assert!(ed.is_loading());
    let cmd = ed.update(Message::FileSaved(Err(Error::DialogueClosed)));
    assert_eq!(cmd, Command::Nothing);
    assert!(!ed.is_loading());
    assert_eq!(ed.file_path(), None);
    assert!(ed.is_dirty());
}

#[test]
fn scenario_save_includes_trailing_selection() {
    let mut ed = idle();
    type_str(&mut ed, "hello wo");
    ed.update(Message::ActionPerformed(Action::SelectRange(2, 4)));
    let cmd = ed.update(Message::SaveFile);
    match cmd {
        Command::Save(path, text) => {
            assert_eq!(path, None);
            assert_eq!(text, "hello woll");
            assert!(text.ends_with("ll"));
        }
        other => panic!("expected a save command, got {:?}", other),
    }
}

#[test]
fn save_of_suffix_selection_is_not_duplicated() {
    let mut ed = idle();
    type_str(&mut ed, "hello");
    ed.update(Message::ActionPerformed(Action::SelectRange(3, 5)));
    let cmd = ed.update(Message::SaveFile);
    assert_eq!(cmd, Command::Save(None, "hello".to_string()));
}

#[test]
fn open_and_save_while_busy_are_noops() {
    let mut ed = idle();
    type_str(&mut ed, "x");
    let cmd = ed.update(Message::OpenFile);
    assert_eq!(cmd, Command::PickAndLoad);
    assert!(ed.is_loading());
    let text_before = ed.buffer().text();
    let dirty_before = ed.is_dirty();
    let file_before = ed.file_path();
    let cmd = ed.update(Message::OpenFile);
    assert_eq!(cmd, Command::Nothing);
    let cmd = ed.update(Message::SaveFile);
    assert_eq!(cmd, Command::Nothing);
    let cmd = ed.update(Message::NewFile);
    assert_eq!(cmd, Command::Nothing);
    assert!(ed.is_loading());
    assert_eq!(ed.buffer().text(), text_before);
    assert_eq!(ed.is_dirty(), dirty_before);
    assert_eq!(ed.file_path(), file_before);
}

#[test]
fn navigation_never_dirties_edits_always_do() {
    let mut ed = idle();
    ed.update(Message::ActionPerformed(Action::Move(Motion::Left)));
    ed.update(Message::ActionPerformed(Action::SelectAll));
    assert!(!ed.is_dirty());
    ed.update(Message::ActionPerformed(Action::Insert('a')));
    assert!(ed.is_dirty());
    ed.update(Message::ActionPerformed(Action::Move(Motion::Right)));
    assert!(ed.is_dirty());
}

#[test]
fn load_resets_dirty_even_on_failure() {
    let mut ed = idle();
    type_str(&mut ed, "soon discarded");
    assert!(ed.is_dirty());
    ed.update(Message::OpenFile);
    let cmd = ed.update(Message::FileOpened(Err(Error::IO(IoErrorKind::NotFound))));
    assert_eq!(cmd, Command::Nothing);
    assert!(!ed.is_dirty());
    assert_eq!(ed.buffer().text(), "soon discarded");
}

#[test]
fn save_failure_preserves_dirty_and_path() {
    let mut ed = idle();
    ed.update(Message::FileOpened(Ok((
        "/tmp/a.rs".to_string(),
        "fn main(){}".to_string(),
    ))));
    type_str(&mut ed, "// note\n");
    assert!(ed.is_dirty());
    let cmd = ed.update(Message::SaveFile);
    match cmd {
        Command::Save(path, _) => assert_eq!(path, Some("/tmp/a.rs".to_string())),
        other => panic!("expected a save command, got {:?}", other),
    }
    ed.update(Message::FileSaved(Err(Error::IO(
        IoErrorKind::PermissionDenied,
    ))));
    assert!(ed.is_dirty());
    assert!(!ed.is_loading());
    assert_eq!(ed.file_path(), Some("/tmp/a.rs".to_string()));
}

#[test]
fn save_success_clears_dirty_and_updates_path() {
    let mut ed = idle();
    type_str(&mut ed, "content");
    ed.update(Message::SaveFile);
    let cmd = ed.update(Message::FileSaved(Ok("/tmp/out.txt".to_string())));
    assert_eq!(cmd, Command::Nothing);
    assert!(!ed.is_dirty());
    assert!(!ed.is_loading());
    assert_eq!(ed.file_path(), Some("/tmp/out.txt".to_string()));
}

#[test]
fn theme_selection_and_appearance() {
    let mut ed = idle();
    assert_eq!(ed.theme(), Appearance::Dark);
    let cmd = ed.update(Message::ThemeSelected(Theme::InspiredGitHub));
    assert_eq!(cmd, Command::Nothing);
    assert_eq!(ed.current_theme(), Theme::InspiredGitHub);
    assert_eq!(ed.theme(), Appearance::Light);
    ed.update(Message::ThemeSelected(Theme::SolarizedDark));
    assert_eq!(ed.theme(), Appearance::Dark);
}

#[test]
fn word_wrap_toggles() {
    let mut ed = idle();
    assert!(ed.word_wrap());
    let cmd = ed.update(Message::WordWrapToggled(false));
    assert_eq!(cmd, Command::Nothing);
    assert!(!ed.word_wrap());
    ed.update(Message::WordWrapToggled(true));
    assert!(ed.word_wrap());
}

#[test]
fn ctrl_s_binds_to_save() {
    assert_eq!(key_binding('s', true), Some(Message::SaveFile));
    assert_eq!(key_binding('s', false), None);
    assert_eq!(key_binding('a', true), None);
    assert_eq!(key_binding('x', false), None);
}

#[test]
fn theme_set_is_fixed_and_mostly_dark() {
    let all = Theme::all();
    assert_eq!(all.len(), 5);
    assert_eq!(all[0], Theme::InspiredGitHub);
    assert!(!Theme::InspiredGitHub.is_dark());
    assert!(Theme::SolarizedDark.is_dark());
    assert!(Theme::Base16Eighties.is_dark());
    assert!(Theme::Base16Mocha.is_dark());
    assert!(Theme::Base16Ocean.is_dark());
}
