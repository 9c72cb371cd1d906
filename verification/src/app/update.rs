//! The rules by which the state of the interface changes.
//!
//! [`next_state`] and [`next_action`] say, for every state and every
//! message, what the state becomes and what has to be done. [`update`] is
//! the executable form of the two.

use vstd::prelude::*;
use vstd::string::*;
use crate::app::messages::{picked_files_view, Message, MessageView, PickedFile, PickedFileView};
use crate::app::state::{well_formed, AppState, AppStateView};
use crate::attachment::{committed_name, editable_name, to_committed, to_editable, MAX_ATTACHMENTS};
use crate::config::{EmailSettings, EmailSettingsView};
use crate::email::files_view;
use crate::path::{keys_of, paths_view, same_bytes, FilePath, FilePathView};
use crate::text::{decimal, decimal_string, strings_view};
use std::path::PathBuf;

verus! {

/// What the interface has to do after a message was taken in.
#[derive(Debug)]
pub enum Action {
    /// Nothing.
    Nothing,
    /// Show the file dialog, and answer with [`Message::FilesPicked`].
    PickFiles,
    /// Mail the files, each a path with its display name, and answer with
    /// [`Message::Sent`].
    SendMail { files: Vec<(PathBuf, String)>, settings: EmailSettings },
    /// Save the settings, and answer with [`Message::SettingsSaved`].
    SaveSettings { settings: EmailSettings },
}

/// Mathematical model of an [`Action`].
pub enum ActionView {
    Nothing,
    PickFiles,
    SendMail { files: Seq<(PathBuf, Seq<char>)>, settings: EmailSettingsView },
    SaveSettings { settings: EmailSettingsView },
}

impl View for Action {
    type V = ActionView;

    open spec fn view(&self) -> ActionView {
        match self {
            Action::Nothing => ActionView::Nothing,
            Action::PickFiles => ActionView::PickFiles,
            Action::SendMail { files, settings } => ActionView::SendMail {
                files: files_view(files@),
                settings: settings@,
            },
            Action::SaveSettings { settings } => ActionView::SaveSettings { settings: settings@ },
        }
    }
}

/// Whether an extension is `pdf`, in any mix of upper and lower case.
pub open spec fn is_pdf_extension(extension: Option<Seq<char>>) -> bool {
    &&& extension matches Some(e)
    &&& e.len() == 3
    &&& (e[0] == 'p' || e[0] == 'P')
    &&& (e[1] == 'd' || e[1] == 'D')
    &&& (e[2] == 'f' || e[2] == 'F')
}

/// The display name that a file gets when it is selected: the last
/// component of its path, or a fixed name where there is none.
pub open spec fn display_name_of(file: PickedFileView) -> Seq<char> {
    match file.file_name {
        Some(name) => name,
        None => "attachment.pdf"@,
    }
}

/// Whether a picked file joins a selection: it is a PDF by its extension
/// and no selected file has its key.
pub open spec fn joins(selected: Seq<FilePathView>, file: PickedFileView) -> bool {
    is_pdf_extension(file.extension) && !keys_of(selected).contains(file.file.key)
}

/// [`joins`] as a predicate on files.
pub open spec fn joining(selected: Seq<FilePathView>) -> spec_fn(PickedFileView) -> bool {
    |file: PickedFileView| joins(selected, file)
}

/// The state after files were picked: those that join the selection are
/// appended in the order picked, each with its first display name.
pub open spec fn with_picked(s: AppStateView, files: Seq<PickedFileView>) -> AppStateView {
    let fresh = files.filter(joining(s.selected_files));
    AppStateView {
        selected_files: s.selected_files + fresh.map_values(|f: PickedFileView| f.file),
        file_names: s.file_names + fresh.map_values(|f: PickedFileView| display_name_of(f)),
        ..s
    }
}

/// The state after the edit of the name at `index` was committed: the
/// name is replaced as [`committed_name`] says, and the edit field is
/// emptied. A position past the last name changes no name.
pub open spec fn with_commit(s: AppStateView, index: nat) -> AppStateView {
    AppStateView {
        file_names: if index < s.file_names.len() {
            s.file_names.update(
                index as int,
                committed_name(s.editing_buffer, s.file_names[index as int]),
            )
        } else {
            s.file_names
        },
        editing_buffer: Seq::empty(),
        ..s
    }
}

/// The state after an edit that may be under way was committed.
pub open spec fn with_pending_commit(s: AppStateView) -> AppStateView {
    match s.editing_index {
        Some(index) => with_commit(AppStateView { editing_index: None, ..s }, index),
        None => s,
    }
}

/// The state after the file with `key` was removed: the first file with
/// that key leaves the selection together with its display name, and an
/// edit of that very name ends.
pub open spec fn without_file(s: AppStateView, key: Seq<u8>) -> AppStateView {
    match keys_of(s.selected_files).index_of_first(key) {
        Some(index) => AppStateView {
            selected_files: s.selected_files.remove(index),
            file_names: s.file_names.remove(index),
            editing_index: if s.editing_index == Some(index as nat) {
                None
            } else {
                s.editing_index
            },
            ..s
        },
        None => s,
    }
}

/// The selected files as they are handed to a dispatch: each path with
/// its display name.
pub open spec fn paired(files: Seq<FilePathView>, names: Seq<Seq<char>>) -> Seq<
    (PathBuf, Seq<char>),
> {
    Seq::new(files.len(), |i: int| (files[i].path, names[i]))
}

/// The status line that refuses a selection of `count` files.
pub open spec fn too_many_status(count: nat) -> Seq<char> {
    "Too many attachments: "@ + decimal(count) + " (max 5)"@
}

/// The status line for the end of a dispatch.
pub open spec fn sent_status(result: Result<nat, Seq<char>>) -> Seq<char> {
    match result {
        Ok(count) => "Sent "@ + decimal(count) + " attachment(s)"@,
        Err(detail) => "Error: "@ + detail,
    }
}

/// The state after the user asked to send. Nothing changes while a
/// dispatch is under way. A selection over the limit is refused in the
/// status line. Otherwise a pending edit is committed and the dispatch
/// begins.
pub open spec fn with_send(s: AppStateView) -> AppStateView {
    if s.sending {
        s
    } else if s.selected_files.len() > MAX_ATTACHMENTS {
        AppStateView { status: Some(too_many_status(s.selected_files.len())), ..s }
    } else {
        AppStateView { sending: true, status: Some("Sending..."@), ..with_pending_commit(s) }
    }
}

/// The state after the user asked to edit the name at `index`: a pending
/// edit is committed first, and the name is offered without its suffix.
pub open spec fn with_edit(s: AppStateView, index: nat) -> AppStateView {
    if index < s.file_names.len() {
        let c = with_pending_commit(s);
        AppStateView {
            editing_index: Some(index),
            editing_buffer: editable_name(c.file_names[index as int]),
            ..c
        }
    } else {
        s
    }
}

/// The state after saving the settings ended.
pub open spec fn with_saved(s: AppStateView, result: Result<(), Seq<char>>) -> AppStateView {
    match result {
        Ok(_) => AppStateView {
            status: Some("Settings saved successfully"@),
            settings_changed: false,
            show_settings: false,
            ..s
        },
        Err(detail) => AppStateView { status: Some("Error saving settings: "@ + detail), ..s },
    }
}

/// The state with one field of the settings replaced.
pub open spec fn with_settings(s: AppStateView, settings: EmailSettingsView) -> AppStateView {
    AppStateView { settings, settings_changed: true, ..s }
}

/// The state that follows `s` when `m` is taken in.
pub open spec fn next_state(s: AppStateView, m: MessageView) -> AppStateView {
    match m {
        MessageView::OpenFiles => s,
        MessageView::FilesPicked(None) => s,
        MessageView::FilesPicked(Some(files)) => with_picked(s, files),
        MessageView::FilesDropped(_) => s,
        MessageView::Send => with_send(s),
        MessageView::Sent(result) => AppStateView {
            sending: false,
            status: Some(sent_status(result)),
            ..s
        },
        MessageView::Remove(key) => without_file(s, key),
        MessageView::EditName(index) => with_edit(s, index),
        MessageView::NameChanged(text) => AppStateView { editing_buffer: text, ..s },
        MessageView::CommitEdit => with_pending_commit(s),
        MessageView::CancelEdit => AppStateView {
            editing_index: None,
            editing_buffer: Seq::empty(),
            ..s
        },
        MessageView::OpenSettings => AppStateView { show_settings: true, ..s },
        MessageView::CloseSettings => AppStateView { show_settings: false, ..s },
        MessageView::SmtpHostChanged(text) => with_settings(
            s,
            EmailSettingsView { smtp_host: text, ..s.settings },
        ),
        MessageView::SmtpPortChanged(text) => with_settings(
            s,
            EmailSettingsView { smtp_port: text, ..s.settings },
        ),
        MessageView::FromEmailChanged(text) => with_settings(
            s,
            EmailSettingsView { from_email: text, ..s.settings },
        ),
        MessageView::ToEmailChanged(text) => with_settings(
            s,
            EmailSettingsView { to_email: text, ..s.settings },
        ),
        MessageView::AppPasswordChanged(text) => with_settings(
            s,
            EmailSettingsView { app_password: text, ..s.settings },
        ),
        MessageView::SaveSettings => s,
        MessageView::SettingsSaved(result) => with_saved(s, result),
    }
}

/// What has to be done when `m` is taken in in state `s`.
pub open spec fn next_action(s: AppStateView, m: MessageView) -> ActionView {
    match m {
        MessageView::OpenFiles => ActionView::PickFiles,
        MessageView::Send => if !s.sending && s.selected_files.len() <= MAX_ATTACHMENTS {
            let c = with_pending_commit(s);
            ActionView::SendMail { files: paired(c.selected_files, c.file_names), settings: s.settings }
        } else {
            ActionView::Nothing
        },
        MessageView::SaveSettings => ActionView::SaveSettings { settings: s.settings },
        _ => ActionView::Nothing,
    }
}

/// Every selected file keeps its display name, whatever happens.
pub proof fn lemma_step_keeps_well_formed(s: AppStateView, m: MessageView)
    requires
        well_formed(s),
    ensures
        well_formed(next_state(s, m)),
{
    match m {
        MessageView::Remove(key) => {
            keys_of(s.selected_files).index_of_first_ensures(key);
        },
        _ => {},
    }
}

/// A dispatch is asked for only by a request to send, only with a
/// selection within the limit, never while another is under way, and with
/// every selected file in it; the state then shows it as under way.
pub proof fn lemma_send_respects_limit(s: AppStateView, m: MessageView)
    requires
        well_formed(s),
        next_action(s, m) is SendMail,
    ensures
        m is Send,
        !s.sending,
        next_action(s, m)->SendMail_files.len() <= MAX_ATTACHMENTS,
        next_action(s, m)->SendMail_files.len() == s.selected_files.len(),
        next_state(s, m).sending,
{
}

/// A selection over the limit is never sent: the request changes the
/// status line and nothing else, and asks for nothing to be done.
pub proof fn lemma_over_limit_is_refused(s: AppStateView)
    requires
        !s.sending,
        s.selected_files.len() > MAX_ATTACHMENTS,
    ensures
        next_action(s, MessageView::Send) is Nothing,
        next_state(s, MessageView::Send) == (AppStateView {
            status: Some(too_many_status(s.selected_files.len())),
            ..s
        }),
{
}

/// What the user types reaches the commit as typed: after the text of
/// the edit field changed to `typed` and the edit was committed, the name
/// under edit is `committed_name(typed, previous)`, every other name is as
/// before, and no edit is under way.
pub proof fn lemma_typed_name_is_committed_as_typed(s: AppStateView, index: nat, typed: Seq<char>)
    requires
        s.editing_index == Some(index),
        index < s.file_names.len(),
    ensures
        ({
            let after = next_state(
                next_state(s, MessageView::NameChanged(typed)),
                MessageView::CommitEdit,
            );
            &&& after.file_names == s.file_names.update(
                index as int,
                committed_name(typed, s.file_names[index as int]),
            )
            &&& after.selected_files == s.selected_files
            &&& after.editing_index is None
            &&& after.editing_buffer.len() == 0
        }),
{
}

/// The display name that a picked file gets when it joins the selection.
pub fn default_display_name(file: &PickedFile) -> (r: String)
    ensures
        r@ == display_name_of(file@),
{
    match &file.file_name {
        Some(name) => name.clone(),
        None => String::from_str("attachment.pdf"),
    }
}

/// Commits the edit of the display name at `index`: the trimmed content
/// of the edit field, with `.pdf` guaranteed, becomes the name, unless it
/// trims to nothing, in which case the name stays. The edit field is
/// emptied either way.
pub fn commit_edit(state: &mut AppState, index: usize)
    ensures
        final(state)@ == with_commit(old(state)@, index as nat),
{
    if index < state.file_names.len() {
        let name = to_committed(state.editing_buffer.as_str(), state.file_names[index].as_str());
        state.file_names.set(index, name);
        assert(strings_view(state.file_names@) =~= with_commit(
            old(state)@,
            index as nat,
        ).file_names);
    }
    state.editing_buffer = String::new();
}

/// Commits the edit that may be under way.
fn commit_pending(state: &mut AppState)
    ensures
        final(state)@ == with_pending_commit(old(state)@),
{
    match state.editing_index {
        Some(index) => {
            state.editing_index = None;
            commit_edit(state, index);
        },
        None => {},
    }
}

/// Tests whether the extension of a picked file is `pdf`, ignoring case.
fn has_pdf_extension(file: &PickedFile) -> (r: bool)
    ensures
        r == is_pdf_extension(file@.extension),
{
    match &file.extension {
        None => false,
        Some(extension) => {
            let e = extension.as_str();
            if e.unicode_len() != 3 {
                return false;
            }
            let p = e.get_char(0);
            let d = e.get_char(1);
            let f = e.get_char(2);
            (p == 'p' || p == 'P') && (d == 'd' || d == 'D') && (f == 'f' || f == 'F')
        },
    }
}

/// Tests whether `key` is the key of one of the first `limit` of `files`.
fn is_among(files: &Vec<FilePath>, limit: usize, key: &Vec<u8>) -> (r: bool)
    requires
        limit <= files.len(),
    ensures
        r == keys_of(paths_view(files@).take(limit as int)).contains(key@),
{
    let ghost given = keys_of(paths_view(files@).take(limit as int));
    let mut i: usize = 0;
    while i < limit
        invariant
            i <= limit <= files.len(),
            given == keys_of(paths_view(files@).take(limit as int)),
            forall|j: int| 0 <= j < i ==> given[j] != key@,
        decreases limit - i,
    {
        if same_bytes(&files[i].key, key) {
            assert(given[i as int] == key@);
            return true;
        }
        i += 1;
    }
    false
}

/// Takes picked files into the selection.
fn add_files(state: &mut AppState, files: &Vec<PickedFile>)
    ensures
        final(state)@ == with_picked(old(state)@, picked_files_view(files@)),
{
    let ghost before = state@;
    let ghost picked = picked_files_view(files@);
    let ghost accept = joining(before.selected_files);
    let ghost path_of = |f: PickedFileView| f.file;
    let ghost name_of = |f: PickedFileView| display_name_of(f);
    let selected_before = state.selected_files.len();
    let mut i: usize = 0;
    assert(picked.take(0).filter(accept).map_values(path_of) =~= Seq::<FilePathView>::empty());
    assert(picked.take(0).filter(accept).map_values(name_of) =~= Seq::<Seq<char>>::empty());
    while i < files.len()
        invariant
            i <= files.len(),
            picked == picked_files_view(files@),
            accept == joining(before.selected_files),
            path_of == |f: PickedFileView| f.file,
            name_of == |f: PickedFileView| display_name_of(f),
            selected_before == before.selected_files.len(),
            selected_before <= state.selected_files.len(),
            before == old(state)@,
            paths_view(state.selected_files@) == before.selected_files + picked.take(
                i as int,
            ).filter(accept).map_values(path_of),
            strings_view(state.file_names@) == before.file_names + picked.take(i as int).filter(
                accept,
            ).map_values(name_of),
            state@ == (AppStateView {
                selected_files: paths_view(state.selected_files@),
                file_names: strings_view(state.file_names@),
                ..before
            }),
        decreases files.len() - i,
    {
        let file = &files[i];
        let ghost seen = picked.take(i as int);
        let ghost kept = seen.filter(accept);
        proof {
            assert(picked.take(i as int + 1) == seen.push(file@));
            seen.lemma_filter_push(file@, accept);
            assert(paths_view(state.selected_files@).take(selected_before as int)
                =~= before.selected_files);
        }
        if has_pdf_extension(file) && !is_among(
            &state.selected_files,
            selected_before,
            &file.file.key,
        ) {
            let ghost names = state.file_names@;
            let ghost paths = state.selected_files@;
            state.file_names.push(default_display_name(file));
            state.selected_files.push(file.file.clone());
            proof {
                assert(accept(file@));
                assert(kept.push(file@).map_values(path_of) =~= kept.map_values(path_of).push(
                    file@.file,
                ));
                assert(kept.push(file@).map_values(name_of) =~= kept.map_values(name_of).push(
                    display_name_of(file@),
                ));
                assert(paths_view(state.selected_files@) =~= paths_view(paths).push(
                    file@.file,
                ));
                assert(strings_view(state.file_names@) =~= strings_view(names).push(
                    display_name_of(file@),
                ));
                assert(paths_view(state.selected_files@) =~= before.selected_files + kept.push(
                    file@,
                ).map_values(path_of));
                assert(strings_view(state.file_names@) =~= before.file_names + kept.push(
                    file@,
                ).map_values(name_of));
            }
        } else {
            assert(!accept(file@));
        }
        i += 1;
    }
    assert(picked.take(files.len() as int) == picked);
}

/// Takes the first file with `key` out of the selection.
fn remove_file(state: &mut AppState, key: &Vec<u8>)
    requires
        well_formed(old(state)@),
    ensures
        final(state)@ == without_file(old(state)@, key@),
{
    let ghost before = state@;
    let ghost keys = keys_of(before.selected_files);
    let mut i: usize = 0;
    while i < state.selected_files.len()
        invariant
            i <= state.selected_files.len(),
            state@ == before,
            before == old(state)@,
            keys == keys_of(before.selected_files),
            well_formed(before),
            forall|j: int| 0 <= j < i ==> keys[j] != key@,
        decreases state.selected_files.len() - i,
    {
        if same_bytes(&state.selected_files[i].key, key) {
            proof {
                keys.index_of_first_ensures(key@);
                assert(keys[i as int] == key@);
                assert(keys.index_of_first(key@) == Some(i as int));
            }
            state.selected_files.remove(i);
            state.file_names.remove(i);
            match state.editing_index {
                Some(editing) => {
                    if editing == i {
                        state.editing_index = None;
                    }
                },
                None => {},
            }
            assert(paths_view(state.selected_files@) =~= before.selected_files.remove(i as int));
            assert(strings_view(state.file_names@) =~= before.file_names.remove(i as int));
            return ;
        }
        i += 1;
    }
    proof {
        keys.index_of_first_ensures(key@);
        if keys.contains(key@) {
            let k = choose|k: int| 0 <= k < keys.len() && keys[k] == key@;
            assert(keys[k] != key@);
        }
    }
}

/// Pairs every selected path with its display name.
fn paired_files(state: &AppState) -> (r: Vec<(PathBuf, String)>)
    requires
        well_formed(state@),
    ensures
        files_view(r@) == paired(state@.selected_files, state@.file_names),
{
    let mut files: Vec<(PathBuf, String)> = Vec::new();
    let mut i: usize = 0;
    while i < state.selected_files.len()
        invariant
            i <= state.selected_files.len(),
            state.selected_files.len() == state.file_names.len(),
            files.len() == i,
            forall|j: int|
                0 <= j < i ==> (#[trigger] files@[j]).0 == state.selected_files@[j].path
                    && files@[j].1@ == state.file_names@[j]@,
        decreases state.selected_files.len() - i,
    {
        files.push((state.selected_files[i].path.clone(), state.file_names[i].clone()));
        i += 1;
    }
    assert(files_view(files@) =~= paired(state@.selected_files, state@.file_names));
    files
}

/// Takes in a message: changes the state as [`next_state`] says and
/// returns what [`next_action`] asks for.
pub fn update(state: &mut AppState, message: Message) -> (action: Action)
    requires
        well_formed(old(state)@),
    ensures
        final(state)@ == next_state(old(state)@, message@),
        action@ == next_action(old(state)@, message@),
        well_formed(final(state)@),
{
    proof {
        lemma_step_keeps_well_formed(state@, message@);
    }
    match message {
        Message::OpenFiles => Action::PickFiles,
        Message::FilesPicked(selection) => {
            match selection {
                Some(files) => {
                    add_files(state, &files);
                },
                None => {},
            }
            Action::Nothing
        },
        Message::FilesDropped(_) => Action::Nothing,
        Message::Send => {
            if state.sending {
                return Action::Nothing;
            }
            if state.selected_files.len() > MAX_ATTACHMENTS {
                let count = decimal_string(state.selected_files.len());
                state.status = Some(
                    String::from_str("Too many attachments: ").concat(count.as_str()).concat(
                        " (max 5)",
                    ),
                );
                return Action::Nothing;
            }
            commit_pending(state);
            state.sending = true;
            state.status = Some(String::from_str("Sending..."));
            let files = paired_files(state);
            Action::SendMail { files, settings: state.settings.clone() }
        },
        Message::Sent(result) => {
            state.sending = false;
            state.status = Some(
                match result {
                    Ok(count) => {
                        let shown = decimal_string(count);
                        String::from_str("Sent ").concat(shown.as_str()).concat(" attachment(s)")
                    },
                    Err(detail) => String::from_str("Error: ").concat(detail.as_str()),
                },
            );
            Action::Nothing
        },
        Message::Remove(key) => {
            remove_file(state, &key);
            Action::Nothing
        },
        Message::EditName(index) => {
            if index < state.file_names.len() {
                commit_pending(state);
                state.editing_index = Some(index);
                state.editing_buffer = to_editable(state.file_names[index].as_str());
            }
            Action::Nothing
        },
        Message::NameChanged(text) => {
            state.editing_buffer = text;
            Action::Nothing
        },
        Message::CommitEdit => {
            commit_pending(state);
            Action::Nothing
        },
        Message::CancelEdit => {
            state.editing_index = None;
            state.editing_buffer = String::new();
            Action::Nothing
        },
        Message::OpenSettings => {
            state.show_settings = true;
            Action::Nothing
        },
        Message::CloseSettings => {
            state.show_settings = false;
            Action::Nothing
        },
        Message::SmtpHostChanged(text) => {
            state.settings.smtp_host = text;
            state.settings_changed = true;
            Action::Nothing
        },
        Message::SmtpPortChanged(text) => {
            state.settings.smtp_port = text;
            state.settings_changed = true;
            Action::Nothing
        },
        Message::FromEmailChanged(text) => {
            state.settings.from_email = text;
            state.settings_changed = true;
            Action::Nothing
        },
        Message::ToEmailChanged(text) => {
            state.settings.to_email = text;
            state.settings_changed = true;
            Action::Nothing
        },
        Message::AppPasswordChanged(text) => {
            state.settings.app_password = text;
            state.settings_changed = true;
            Action::Nothing
        },
        Message::SaveSettings => Action::SaveSettings { settings: state.settings.clone() },
        Message::SettingsSaved(result) => {
            match result {
                Ok(_) => {
                    state.status = Some(String::from_str("Settings saved successfully"));
                    state.settings_changed = false;
                    state.show_settings = false;
                },
                Err(detail) => {
                    state.status = Some(
                        String::from_str("Error saving settings: ").concat(detail.as_str()),
                    );
                },
            }
            Action::Nothing
        },
    }
}

} // verus!
