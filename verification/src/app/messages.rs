//! What can happen to the interface.

use vstd::prelude::*;
use vstd::string::*;
use crate::path::{copy_of_bytes, FilePath, FilePathView};
use crate::text::option_text;

verus! {

/// A file offered for selection, with what the rules read of its path.
#[derive(Debug)]
pub struct PickedFile {
    /// The path and its identity.
    pub file: FilePath,
    /// The last component of the path, where it has one that is text.
    pub file_name: Option<String>,
    /// The extension of the last component, where it has one.
    pub extension: Option<String>,
}

/// Mathematical model of a [`PickedFile`].
pub struct PickedFileView {
    pub file: FilePathView,
    pub file_name: Option<Seq<char>>,
    pub extension: Option<Seq<char>>,
}

impl View for PickedFile {
    type V = PickedFileView;

    open spec fn view(&self) -> PickedFileView {
        PickedFileView {
            file: self.file@,
            file_name: option_text(self.file_name),
            extension: option_text(self.extension),
        }
    }
}

/// Copies a text that may be absent.
fn copy_of(text: &Option<String>) -> (r: Option<String>)
    ensures
        option_text(r) == option_text(*text),
{
    match text {
        Some(t) => Some(t.clone()),
        None => None,
    }
}

impl Clone for PickedFile {
    fn clone(&self) -> (r: Self)
        ensures
            r@ == self@,
    {
        PickedFile {
            file: self.file.clone(),
            file_name: copy_of(&self.file_name),
            extension: copy_of(&self.extension),
        }
    }
}

/// The models of a list of picked files.
pub open spec fn picked_files_view(files: Seq<PickedFile>) -> Seq<PickedFileView> {
    Seq::new(files.len(), |i: int| files[i]@)
}

/// An event of the interface, or the answer to an [`Action`](super::update::Action).
#[derive(Debug)]
pub enum Message {
    /// The user asks for the file dialog.
    OpenFiles,
    /// The file dialog closed, with the files chosen or without a choice.
    FilesPicked(Option<Vec<PickedFile>>),
    /// Files were dropped on the window.
    FilesDropped(Vec<PickedFile>),
    /// The user asks to send the selected files.
    Send,
    /// A dispatch ended, with the number of attachments sent or the failure.
    Sent(Result<usize, String>),
    /// The user removes the file with this key from the selection.
    Remove(Vec<u8>),
    /// The user starts to edit the display name at this position.
    EditName(usize),
    /// The text in the edit field changed.
    NameChanged(String),
    /// The user commits the edit.
    CommitEdit,
    /// The user abandons the edit.
    CancelEdit,
    /// The user opens the settings page.
    OpenSettings,
    /// The user closes the settings page.
    CloseSettings,
    SmtpHostChanged(String),
    SmtpPortChanged(String),
    FromEmailChanged(String),
    ToEmailChanged(String),
    AppPasswordChanged(String),
    /// The user asks to save the settings.
    SaveSettings,
    /// Saving the settings ended, well or with the failure.
    SettingsSaved(Result<(), String>),
}

/// Mathematical model of a [`Message`].
pub enum MessageView {
    OpenFiles,
    FilesPicked(Option<Seq<PickedFileView>>),
    FilesDropped(Seq<PickedFileView>),
    Send,
    Sent(Result<nat, Seq<char>>),
    Remove(Seq<u8>),
    EditName(nat),
    NameChanged(Seq<char>),
    CommitEdit,
    CancelEdit,
    OpenSettings,
    CloseSettings,
    SmtpHostChanged(Seq<char>),
    SmtpPortChanged(Seq<char>),
    FromEmailChanged(Seq<char>),
    ToEmailChanged(Seq<char>),
    AppPasswordChanged(Seq<char>),
    SaveSettings,
    SettingsSaved(Result<(), Seq<char>>),
}

impl View for Message {
    type V = MessageView;

    open spec fn view(&self) -> MessageView {
        match self {
            Message::OpenFiles => MessageView::OpenFiles,
            Message::FilesPicked(None) => MessageView::FilesPicked(None),
            Message::FilesPicked(Some(files)) => MessageView::FilesPicked(
                Some(picked_files_view(files@)),
            ),
            Message::FilesDropped(files) => MessageView::FilesDropped(picked_files_view(files@)),
            Message::Send => MessageView::Send,
            Message::Sent(Ok(count)) => MessageView::Sent(Ok(*count as nat)),
            Message::Sent(Err(detail)) => MessageView::Sent(Err(detail@)),
            Message::Remove(key) => MessageView::Remove(key@),
            Message::EditName(index) => MessageView::EditName(*index as nat),
            Message::NameChanged(text) => MessageView::NameChanged(text@),
            Message::CommitEdit => MessageView::CommitEdit,
            Message::CancelEdit => MessageView::CancelEdit,
            Message::OpenSettings => MessageView::OpenSettings,
            Message::CloseSettings => MessageView::CloseSettings,
            Message::SmtpHostChanged(text) => MessageView::SmtpHostChanged(text@),
            Message::SmtpPortChanged(text) => MessageView::SmtpPortChanged(text@),
            Message::FromEmailChanged(text) => MessageView::FromEmailChanged(text@),
            Message::ToEmailChanged(text) => MessageView::ToEmailChanged(text@),
            Message::AppPasswordChanged(text) => MessageView::AppPasswordChanged(text@),
            Message::SaveSettings => MessageView::SaveSettings,
            Message::SettingsSaved(Ok(_)) => MessageView::SettingsSaved(Ok(())),
            Message::SettingsSaved(Err(detail)) => MessageView::SettingsSaved(Err(detail@)),
        }
    }
}

/// Copies a list of picked files.
fn copy_of_files(files: &Vec<PickedFile>) -> (r: Vec<PickedFile>)
    ensures
        picked_files_view(r@) == picked_files_view(files@),
{
    let mut copy: Vec<PickedFile> = Vec::new();
    let mut i: usize = 0;
    while i < files.len()
        invariant
            i <= files.len(),
            copy.len() == i,
            forall|j: int| 0 <= j < i ==> (#[trigger] copy@[j])@ == files@[j]@,
        decreases files.len() - i,
    {
        copy.push(files[i].clone());
        i += 1;
    }
    assert(picked_files_view(copy@) =~= picked_files_view(files@));
    copy
}

impl Clone for Message {
    fn clone(&self) -> (r: Self)
        ensures
            r@ == self@,
    {
        match self {
            Message::OpenFiles => Message::OpenFiles,
            Message::FilesPicked(None) => Message::FilesPicked(None),
            Message::FilesPicked(Some(files)) => Message::FilesPicked(Some(copy_of_files(files))),
            Message::FilesDropped(files) => Message::FilesDropped(copy_of_files(files)),
            Message::Send => Message::Send,
            Message::Sent(Ok(count)) => Message::Sent(Ok(*count)),
            Message::Sent(Err(detail)) => Message::Sent(Err(detail.clone())),
            Message::Remove(key) => Message::Remove(copy_of_bytes(key)),
            Message::EditName(index) => Message::EditName(*index),
            Message::NameChanged(text) => Message::NameChanged(text.clone()),
            Message::CommitEdit => Message::CommitEdit,
            Message::CancelEdit => Message::CancelEdit,
            Message::OpenSettings => Message::OpenSettings,
            Message::CloseSettings => Message::CloseSettings,
            Message::SmtpHostChanged(text) => Message::SmtpHostChanged(text.clone()),
            Message::SmtpPortChanged(text) => Message::SmtpPortChanged(text.clone()),
            Message::FromEmailChanged(text) => Message::FromEmailChanged(text.clone()),
            Message::ToEmailChanged(text) => Message::ToEmailChanged(text.clone()),
            Message::AppPasswordChanged(text) => Message::AppPasswordChanged(text.clone()),
            Message::SaveSettings => Message::SaveSettings,
            Message::SettingsSaved(Ok(_)) => Message::SettingsSaved(Ok(())),
            Message::SettingsSaved(Err(detail)) => Message::SettingsSaved(Err(detail.clone())),
        }
    }
}

} // verus!
