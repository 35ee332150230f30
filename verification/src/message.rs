//! Intents and completion events delivered to the controller, and the
//! asynchronous commands it issues in response.
//!
//! Completions of the two I/O capabilities re-enter the same update path as
//! ordinary messages; a command is a plain value that an outer loop performs.

use vstd::prelude::*;

use crate::buffer::{Action, ActionModel};
use crate::error::{Error, ErrorModel};
use crate::theme::Theme;

verus! {

/// A user- or system-originated request to change state, or the completion
/// of an earlier command.
#[derive(Debug, PartialEq)]
pub enum Message {
    /// An action on the document buffer.
    ActionPerformed(Action),
    /// Replace the document with an empty, untitled one.
    NewFile,
    /// Pick a file and load it.
    OpenFile,
    /// A load command completed with the path read and its contents, or
    /// failed.
    FileOpened(Result<(String, String), Error>),
    /// Persist the document to its path, or to one picked in a dialogue.
    SaveFile,
    /// A save command completed with the path written, or failed.
    FileSaved(Result<String, Error>),
    /// A palette was chosen from the theme set.
    ThemeSelected(Theme),
    /// The word-wrap display preference was switched.
    WordWrapToggled(bool),
}

/// Mathematical model of a [`Message`]: paths and contents as character
/// sequences.
pub enum MessageModel {
    ActionPerformed(ActionModel),
    NewFile,
    OpenFile,
    FileOpened(Result<(Seq<char>, Seq<char>), ErrorModel>),
    SaveFile,
    FileSaved(Result<Seq<char>, ErrorModel>),
    ThemeSelected(Theme),
    WordWrapToggled(bool),
}

impl View for Message {
    type V = MessageModel;

    open spec fn view(&self) -> MessageModel {
        match self {
            Message::ActionPerformed(a) => MessageModel::ActionPerformed(a@),
            Message::NewFile => MessageModel::NewFile,
            Message::OpenFile => MessageModel::OpenFile,
            Message::FileOpened(r) => MessageModel::FileOpened(
                match r {
                    Result::Ok((p, t)) => Result::Ok((p@, t@)),
                    Result::Err(e) => Result::Err(e@),
                },
            ),
            Message::SaveFile => MessageModel::SaveFile,
            Message::FileSaved(r) => MessageModel::FileSaved(
                match r {
                    Result::Ok(p) => Result::Ok(p@),
                    Result::Err(e) => Result::Err(e@),
                },
            ),
            Message::ThemeSelected(t) => MessageModel::ThemeSelected(*t),
            Message::WordWrapToggled(w) => MessageModel::WordWrapToggled(*w),
        }
    }
}

/// An asynchronous I/O command issued by the controller. At most one may be
/// outstanding at a time; its completion comes back as a [`Message`].
#[derive(Clone, Debug, PartialEq)]
pub enum Command {
    /// No command.
    Nothing,
    /// Read the file at the given path; completes as
    /// [`Message::FileOpened`].
    Load(String),
    /// Show an open-dialogue, then read the chosen file; completes as
    /// [`Message::FileOpened`].
    PickAndLoad,
    /// Write the text to the path, or to one chosen in a save-dialogue when
    /// no path is given; completes as [`Message::FileSaved`].
    Save(Option<String>, String),
}

/// Mathematical model of a [`Command`].
pub enum CommandModel {
    Nothing,
    Load(Seq<char>),
    PickAndLoad,
    Save(Option<Seq<char>>, Seq<char>),
}

impl View for Command {
    type V = CommandModel;

    open spec fn view(&self) -> CommandModel {
        match self {
            Command::Nothing => CommandModel::Nothing,
            Command::Load(p) => CommandModel::Load(p@),
            Command::PickAndLoad => CommandModel::PickAndLoad,
            Command::Save(p, t) => CommandModel::Save(
                match p {
                    Option::Some(p0) => Option::Some(p0@),
                    Option::None => Option::None,
                },
                t@,
            ),
        }
    }
}

impl CommandModel {
    /// The commands that perform a load or save against the filesystem or a
    /// dialogue: the ones the mutual-exclusion guard serialises.
    pub open spec fn is_io(self) -> bool {
        match self {
            CommandModel::Nothing => false,
            CommandModel::Load(_) => true,
            CommandModel::PickAndLoad => true,
            CommandModel::Save(_, _) => true,
        }
    }
}

impl MessageModel {
    /// The completion events of the two I/O capabilities.
    pub open spec fn is_completion(self) -> bool {
        match self {
            MessageModel::FileOpened(_) => true,
            MessageModel::FileSaved(_) => true,
            _ => false,
        }
    }
}

} // verus!
