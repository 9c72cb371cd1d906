use send_to_goodnotes::app::{
    commit_edit, default_display_name, status_tone, update, Action, AppState, Message, PickedFile,
    StatusTone,
};
use send_to_goodnotes::config::{ConfigError, ConfigManager, EmailSettings};
use send_to_goodnotes::path::FilePath;
use std::path::{Path, PathBuf};

fn key(path: &str) -> Vec<u8> {
    let normal: PathBuf = Path::new(path).components().collect();
    normal.as_os_str().as_encoded_bytes().to_vec()
}

fn picked(path: &str) -> PickedFile {
    let p = Path::new(path);
    PickedFile {
        file: FilePath { path: p.to_path_buf(), key: key(path) },
        file_name: p.file_name().and_then(|n| n.to_str()).map(|n| n.to_string()),
        extension: p.extension().and_then(|e| e.to_str()).map(|e| e.to_string()),
    }
}

fn selected(state: &AppState) -> Vec<String> {
    state.selected_files.iter().map(|f| f.path.to_str().unwrap().to_string()).collect()
}

fn state_with(paths: &[&str]) -> AppState {
    let mut state = AppState::default();
    let files = paths.iter().map(|p| picked(p)).collect();
    update(&mut state, Message::FilesPicked(Some(files)));
    state
}

fn nothing(action: Action) {
    assert!(matches!(action, Action::Nothing), "{:?}", action);
}

#[test]
fn fresh_state_is_empty() {
    let state = AppState::default();
    assert!(state.selected_files.is_empty());
    assert!(state.file_names.is_empty());
    assert_eq!(state.status, None);
    assert!(!state.sending);
    assert_eq!(state.editing_index, None);
    assert_eq!(state.editing_buffer, "");
    assert!(!state.show_settings);
    assert_eq!(state.settings.smtp_host, "smtp.gmail.com");
    assert!(state.config_manager.is_none());
    assert!(!state.settings_changed);
    assert!(!state.can_send());
}

#[test]
fn startup_takes_loaded_settings() {
    let mut loaded = EmailSettings::default();
    loaded.from_email = "me@example.org".to_string();
    let store = ConfigManager::with_identity(PathBuf::from("/cfg/settings.json"), "me");
    let state = AppState::startup(Some(store), Ok(loaded));
    assert_eq!(state.settings.from_email, "me@example.org");
    assert_eq!(
        state.config_manager.as_ref().unwrap().config_path(),
        Path::new("/cfg/settings.json")
    );
    assert!(state.selected_files.is_empty());
}

#[test]
fn startup_falls_back_to_defaults() {
    let store = ConfigManager::with_identity(PathBuf::from("/cfg/settings.json"), "me");
    let state = AppState::startup(Some(store), Err(ConfigError::Decryption("aead::Error".to_string())));
    assert_eq!(state.settings.smtp_host, "smtp.gmail.com");
    assert_eq!(state.settings.from_email, "");
    assert!(state.config_manager.is_some());

    let mut loaded = EmailSettings::default();
    loaded.from_email = "me@example.org".to_string();
    let state = AppState::startup(None, Ok(loaded));
    assert_eq!(state.settings.from_email, "");
    assert!(state.config_manager.is_none());
}

#[test]
fn display_name_is_the_file_name() {
    assert_eq!(default_display_name(&picked("/tmp/Report.pdf")), "Report.pdf");
    assert_eq!(default_display_name(&picked("relative/dir/x.PDF")), "x.PDF");
    let nameless = PickedFile {
        file: FilePath { path: PathBuf::from("/"), key: key("/") },
        file_name: None,
        extension: None,
    };
    assert_eq!(default_display_name(&nameless), "attachment.pdf");
}

#[test]
fn open_files_asks_for_the_dialog() {
    let mut state = AppState::default();
    assert!(matches!(update(&mut state, Message::OpenFiles), Action::PickFiles));
    assert!(state.selected_files.is_empty());
}

#[test]
fn picked_files_join_the_selection() {
    let state = state_with(&["/a/one.pdf", "/a/two.PDF"]);
    assert_eq!(selected(&state), vec!["/a/one.pdf", "/a/two.PDF"]);
    assert_eq!(state.file_names, vec!["one.pdf", "two.PDF"]);
}

#[test]
fn picked_files_that_are_no_pdf_stay_out() {
    let state = state_with(&["/a/one.pdf", "/a/notes.txt", "/a/noext", "/a/two.Pdf", "/a/x.pdfx", "/a/.pdf"]);
    assert_eq!(selected(&state), vec!["/a/one.pdf", "/a/two.Pdf"]);
    assert_eq!(state.file_names, vec!["one.pdf", "two.Pdf"]);
}

#[test]
fn picked_files_already_selected_stay_out() {
    let mut state = state_with(&["/a/one.pdf", "/a/two.pdf"]);
    let again = vec![picked("/a/two.pdf"), picked("/a/three.pdf"), picked("/a/one.pdf")];
    nothing(update(&mut state, Message::FilesPicked(Some(again))));
    assert_eq!(selected(&state), vec!["/a/one.pdf", "/a/two.pdf", "/a/three.pdf"]);
    assert_eq!(state.file_names, vec!["one.pdf", "two.pdf", "three.pdf"]);
}

#[test]
fn one_pick_may_name_a_new_file_twice() {
    let state = state_with(&["/a/one.pdf", "/a/one.pdf"]);
    assert_eq!(selected(&state), vec!["/a/one.pdf", "/a/one.pdf"]);
    assert_eq!(state.file_names.len(), 2);
}

#[test]
fn closed_dialog_changes_nothing() {
    let mut state = state_with(&["/a/one.pdf"]);
    nothing(update(&mut state, Message::FilesPicked(None)));
    assert_eq!(selected(&state), vec!["/a/one.pdf"]);
    nothing(update(&mut state, Message::FilesPicked(Some(Vec::new()))));
    assert_eq!(selected(&state), vec!["/a/one.pdf"]);
}

#[test]
fn dropped_files_are_not_taken() {
    let mut state = state_with(&["/a/one.pdf"]);
    nothing(update(&mut state, Message::FilesDropped(vec![picked("/a/two.pdf")])));
    assert_eq!(selected(&state), vec!["/a/one.pdf"]);
    assert_eq!(state.file_names, vec!["one.pdf"]);
}

#[test]
fn selection_may_exceed_the_limit_until_it_is_sent() {
    let mut state = state_with(&["/1.pdf", "/2.pdf", "/3.pdf", "/4.pdf", "/5.pdf", "/6.pdf"]);
    assert_eq!(state.selected_files.len(), 6);
    assert!(!state.can_send());
    nothing(update(&mut state, Message::Send));
    assert_eq!(state.status.as_deref(), Some("Too many attachments: 6 (max 5)"));
    assert!(!state.sending);
    assert_eq!(state.selected_files.len(), 6);
}

#[test]
fn refused_send_leaves_the_edit_open() {
    let mut state = state_with(&["/1.pdf", "/2.pdf", "/3.pdf", "/4.pdf", "/5.pdf", "/6.pdf"]);
    update(&mut state, Message::EditName(2));
    update(&mut state, Message::NameChanged("changed".to_string()));
    nothing(update(&mut state, Message::Send));
    assert_eq!(state.editing_index, Some(2));
    assert_eq!(state.editing_buffer, "changed");
    assert_eq!(state.file_names[2], "3.pdf");
}

#[test]
fn send_hands_out_the_selection() {
    let mut state = state_with(&["/a/one.pdf", "/a/two.pdf"]);
    state.settings.from_email = "a@x.com".to_string();
    assert!(state.can_send());
    match update(&mut state, Message::Send) {
        Action::SendMail { files, settings } => {
            assert_eq!(
                files,
                vec![
                    (PathBuf::from("/a/one.pdf"), "one.pdf".to_string()),
                    (PathBuf::from("/a/two.pdf"), "two.pdf".to_string()),
                ]
            );
            assert_eq!(settings.from_email, "a@x.com");
            assert_eq!(settings.smtp_host, "smtp.gmail.com");
        }
        other => panic!("unexpected: {:?}", other),
    }
    assert!(state.sending);
    assert_eq!(state.status.as_deref(), Some("Sending..."));
    assert!(!state.can_send());
}

#[test]
fn send_of_five_files_is_allowed() {
    let mut state = state_with(&["/1.pdf", "/2.pdf", "/3.pdf", "/4.pdf", "/5.pdf"]);
    match update(&mut state, Message::Send) {
        Action::SendMail { files, .. } => assert_eq!(files.len(), 5),
        other => panic!("unexpected: {:?}", other),
    }
}

#[test]
fn send_of_an_empty_selection_is_passed_on() {
    let mut state = AppState::default();
    match update(&mut state, Message::Send) {
        Action::SendMail { files, .. } => assert!(files.is_empty()),
        other => panic!("unexpected: {:?}", other),
    }
    assert!(state.sending);
}

#[test]
fn send_commits_the_pending_edit() {
    let mut state = state_with(&["/a/one.pdf", "/a/two.pdf"]);
    update(&mut state, Message::EditName(1));
    update(&mut state, Message::NameChanged("  Renamed ".to_string()));
    match update(&mut state, Message::Send) {
        Action::SendMail { files, .. } => {
            assert_eq!(files[0].1, "one.pdf");
            assert_eq!(files[1], (PathBuf::from("/a/two.pdf"), "Renamed.pdf".to_string()));
        }
        other => panic!("unexpected: {:?}", other),
    }
    assert_eq!(state.editing_index, None);
    assert_eq!(state.editing_buffer, "");
    assert_eq!(state.file_names, vec!["one.pdf", "Renamed.pdf"]);
}

#[test]
fn send_while_sending_does_nothing() {
    let mut state = state_with(&["/a/one.pdf"]);
    update(&mut state, Message::Send);
    state.status = Some("marker".to_string());
    nothing(update(&mut state, Message::Send));
    assert!(state.sending);
    assert_eq!(state.status.as_deref(), Some("marker"));
}

#[test]
fn sent_reports_the_count() {
    let mut state = state_with(&["/a/one.pdf"]);
    update(&mut state, Message::Send);
    nothing(update(&mut state, Message::Sent(Ok(1))));
    assert!(!state.sending);
    assert_eq!(state.status.as_deref(), Some("Sent 1 attachment(s)"));
    nothing(update(&mut state, Message::Sent(Ok(0))));
    assert_eq!(state.status.as_deref(), Some("Sent 0 attachment(s)"));
    assert_eq!(selected(&state), vec!["/a/one.pdf"]);
}

#[test]
fn sent_reports_the_failure() {
    let mut state = state_with(&["/a/one.pdf"]);
    update(&mut state, Message::Send);
    nothing(update(&mut state, Message::Sent(Err("invalid port number: abc".to_string()))));
    assert!(!state.sending);
    assert_eq!(state.status.as_deref(), Some("Error: invalid port number: abc"));
}

#[test]
fn remove_takes_path_and_name_out() {
    let mut state = state_with(&["/a/one.pdf", "/a/two.pdf", "/a/three.pdf"]);
    nothing(update(&mut state, Message::Remove(key("/a/two.pdf"))));
    assert_eq!(selected(&state), vec!["/a/one.pdf", "/a/three.pdf"]);
    assert_eq!(state.file_names, vec!["one.pdf", "three.pdf"]);
}

#[test]
fn remove_of_an_unknown_path_changes_nothing() {
    let mut state = state_with(&["/a/one.pdf"]);
    nothing(update(&mut state, Message::Remove(key("/a/other.pdf"))));
    assert_eq!(selected(&state), vec!["/a/one.pdf"]);
    assert_eq!(state.file_names, vec!["one.pdf"]);
}

#[test]
fn remove_takes_the_first_of_equal_paths() {
    let mut state = state_with(&["/a/one.pdf", "/a/two.pdf", "/a/one.pdf"]);
    update(&mut state, Message::EditName(0));
    update(&mut state, Message::NameChanged("first".to_string()));
    update(&mut state, Message::CommitEdit);
    nothing(update(&mut state, Message::Remove(key("/a/one.pdf"))));
    assert_eq!(selected(&state), vec!["/a/two.pdf", "/a/one.pdf"]);
    assert_eq!(state.file_names, vec!["two.pdf", "one.pdf"]);
}

#[test]
fn remove_of_the_edited_file_ends_the_edit() {
    let mut state = state_with(&["/a/one.pdf", "/a/two.pdf"]);
    update(&mut state, Message::EditName(1));
    update(&mut state, Message::Remove(key("/a/two.pdf")));
    assert_eq!(state.editing_index, None);
    let mut state = state_with(&["/a/one.pdf", "/a/two.pdf"]);
    update(&mut state, Message::EditName(1));
    update(&mut state, Message::Remove(key("/a/one.pdf")));
    assert_eq!(state.editing_index, Some(1));
}

#[test]
fn edit_offers_the_name_without_suffix() {
    let mut state = state_with(&["/a/Report.pdf", "/a/Other.PDF"]);
    nothing(update(&mut state, Message::EditName(0)));
    assert_eq!(state.editing_index, Some(0));
    assert_eq!(state.editing_buffer, "Report");
    nothing(update(&mut state, Message::EditName(1)));
    assert_eq!(state.editing_index, Some(1));
    assert_eq!(state.editing_buffer, "Other");
    assert_eq!(state.file_names, vec!["Report.pdf", "Other.PDF"]);
}

#[test]
fn edit_of_a_position_out_of_range_is_ignored() {
    let mut state = state_with(&["/a/Report.pdf"]);
    update(&mut state, Message::EditName(0));
    update(&mut state, Message::NameChanged("New".to_string()));
    nothing(update(&mut state, Message::EditName(1)));
    assert_eq!(state.editing_index, Some(0));
    assert_eq!(state.editing_buffer, "New");
    assert_eq!(state.file_names, vec!["Report.pdf"]);
}

#[test]
fn starting_another_edit_commits_the_first() {
    let mut state = state_with(&["/a/one.pdf", "/a/two.pdf"]);
    update(&mut state, Message::EditName(0));
    update(&mut state, Message::NameChanged("Uno".to_string()));
    update(&mut state, Message::EditName(1));
    assert_eq!(state.file_names, vec!["Uno.pdf", "two.pdf"]);
    assert_eq!(state.editing_index, Some(1));
    assert_eq!(state.editing_buffer, "two");
}

#[test]
fn editing_the_same_name_again_shows_what_was_committed() {
    let mut state = state_with(&["/a/one.pdf"]);
    update(&mut state, Message::EditName(0));
    update(&mut state, Message::NameChanged("Uno".to_string()));
    update(&mut state, Message::EditName(0));
    assert_eq!(state.file_names, vec!["Uno.pdf"]);
    assert_eq!(state.editing_buffer, "Uno");
}

#[test]
fn typed_text_stays_as_typed() {
    let mut state = state_with(&["/a/one.pdf"]);
    update(&mut state, Message::EditName(0));
    nothing(update(&mut state, Message::NameChanged("Report.pdf".to_string())));
    assert_eq!(state.editing_buffer, "Report.pdf");
    nothing(update(&mut state, Message::NameChanged("Report.PDF".to_string())));
    assert_eq!(state.editing_buffer, "Report.PDF");
    nothing(update(&mut state, Message::NameChanged("  spaced ".to_string())));
    assert_eq!(state.editing_buffer, "  spaced ");
    assert_eq!(state.file_names, vec!["one.pdf"]);
}

#[test]
fn typed_suffix_is_committed_in_its_case() {
    let mut state = state_with(&["/a/Old.pdf"]);
    update(&mut state, Message::EditName(0));
    update(&mut state, Message::NameChanged("Report.PDF".to_string()));
    nothing(update(&mut state, Message::CommitEdit));
    assert_eq!(state.file_names, vec!["Report.PDF"]);
    assert_eq!(state.editing_index, None);
    assert_eq!(state.editing_buffer, "");
}

#[test]
fn typed_name_without_suffix_gets_one() {
    let mut state = state_with(&["/a/Old.pdf"]);
    update(&mut state, Message::EditName(0));
    update(&mut state, Message::NameChanged("Report".to_string()));
    update(&mut state, Message::CommitEdit);
    assert_eq!(state.file_names, vec!["Report.pdf"]);
}

#[test]
fn commit_message_commits_and_ends_the_edit() {
    let mut state = state_with(&["/a/one.pdf"]);
    update(&mut state, Message::EditName(0));
    update(&mut state, Message::NameChanged("Report".to_string()));
    nothing(update(&mut state, Message::CommitEdit));
    assert_eq!(state.file_names, vec!["Report.pdf"]);
    assert_eq!(selected(&state), vec!["/a/one.pdf"]);
    assert_eq!(state.editing_index, None);
    assert_eq!(state.editing_buffer, "");
}

#[test]
fn commit_without_an_edit_changes_nothing() {
    let mut state = state_with(&["/a/one.pdf"]);
    state.editing_buffer = "stray".to_string();
    nothing(update(&mut state, Message::CommitEdit));
    assert_eq!(state.file_names, vec!["one.pdf"]);
    assert_eq!(state.editing_buffer, "stray");
}

#[test]
fn commit_of_a_blank_field_keeps_the_name() {
    let mut state = state_with(&["/a/one.pdf"]);
    update(&mut state, Message::EditName(0));
    update(&mut state, Message::NameChanged("   ".to_string()));
    update(&mut state, Message::CommitEdit);
    assert_eq!(state.file_names, vec!["one.pdf"]);
    assert_eq!(state.editing_index, None);
}

#[test]
fn cancel_drops_the_edit() {
    let mut state = state_with(&["/a/one.pdf"]);
    update(&mut state, Message::EditName(0));
    update(&mut state, Message::NameChanged("Report".to_string()));
    nothing(update(&mut state, Message::CancelEdit));
    assert_eq!(state.file_names, vec!["one.pdf"]);
    assert_eq!(state.editing_index, None);
    assert_eq!(state.editing_buffer, "");
}

#[test]
fn commit_edit_on_the_state() {
    let mut state = state_with(&["/a/one.pdf", "/a/two.pdf"]);
    state.editing_buffer = " Report ".to_string();
    commit_edit(&mut state, 1);
    assert_eq!(state.file_names, vec!["one.pdf", "Report.pdf"]);
    assert_eq!(state.editing_buffer, "");
    state.editing_buffer = "Report.PDF".to_string();
    commit_edit(&mut state, 0);
    assert_eq!(state.file_names, vec!["Report.PDF", "Report.pdf"]);
    state.editing_buffer = "Lost".to_string();
    commit_edit(&mut state, 2);
    assert_eq!(state.file_names, vec!["Report.PDF", "Report.pdf"]);
    assert_eq!(state.editing_buffer, "");
    state.editing_buffer = "  ".to_string();
    commit_edit(&mut state, 0);
    assert_eq!(state.file_names, vec!["Report.PDF", "Report.pdf"]);
    assert_eq!(selected(&state), vec!["/a/one.pdf", "/a/two.pdf"]);
}

#[test]
fn settings_page_opens_and_closes() {
    let mut state = AppState::default();
    nothing(update(&mut state, Message::OpenSettings));
    assert!(state.show_settings);
    nothing(update(&mut state, Message::CloseSettings));
    assert!(!state.show_settings);
}

#[test]
fn settings_fields_change_one_by_one() {
    let mut state = AppState::default();
    nothing(update(&mut state, Message::SmtpHostChanged("mail.example.org".to_string())));
    assert!(state.settings_changed);
    nothing(update(&mut state, Message::SmtpPortChanged("465".to_string())));
    nothing(update(&mut state, Message::FromEmailChanged("a@x.com".to_string())));
    nothing(update(&mut state, Message::ToEmailChanged("b@y.com".to_string())));
    nothing(update(&mut state, Message::AppPasswordChanged("p a s s".to_string())));
    assert_eq!(state.settings.smtp_host, "mail.example.org");
    assert_eq!(state.settings.smtp_port, "465");
    assert_eq!(state.settings.from_email, "a@x.com");
    assert_eq!(state.settings.to_email, "b@y.com");
    assert_eq!(state.settings.app_password, "p a s s");
    assert!(state.settings_changed);
}

#[test]
fn save_hands_out_the_settings() {
    let mut state = AppState::default();
    update(&mut state, Message::FromEmailChanged("a@x.com".to_string()));
    match update(&mut state, Message::SaveSettings) {
        Action::SaveSettings { settings } => {
            assert_eq!(settings.from_email, "a@x.com");
            assert_eq!(settings.smtp_port, "587");
        }
        other => panic!("unexpected: {:?}", other),
    }
    assert!(state.settings_changed);
}

#[test]
fn saved_settings_close_the_page() {
    let mut state = AppState::default();
    update(&mut state, Message::OpenSettings);
    update(&mut state, Message::FromEmailChanged("a@x.com".to_string()));
    nothing(update(&mut state, Message::SettingsSaved(Ok(()))));
    assert_eq!(state.status.as_deref(), Some("Settings saved successfully"));
    assert!(!state.settings_changed);
    assert!(!state.show_settings);
    assert_eq!(state.settings.from_email, "a@x.com");
}

#[test]
fn failed_save_keeps_the_page_open() {
    let mut state = AppState::default();
    update(&mut state, Message::OpenSettings);
    update(&mut state, Message::FromEmailChanged("a@x.com".to_string()));
    nothing(update(&mut state, Message::SettingsSaved(Err("IO error: denied".to_string()))));
    assert_eq!(state.status.as_deref(), Some("Error saving settings: IO error: denied"));
    assert!(state.settings_changed);
    assert!(state.show_settings);
}

#[test]
fn names_and_paths_stay_paired() {
    let mut state = state_with(&["/1.pdf", "/2.pdf", "/3.pdf"]);
    let messages = vec![
        Message::EditName(1),
        Message::NameChanged("x".to_string()),
        Message::Remove(key("/1.pdf")),
        Message::FilesPicked(Some(vec![picked("/4.pdf"), picked("/2.pdf"), picked("/5.txt")])),
        Message::CommitEdit,
        Message::Remove(key("/none.pdf")),
        Message::Send,
        Message::Sent(Ok(3)),
        Message::CancelEdit,
    ];
    for m in messages {
        update(&mut state, m);
        assert_eq!(state.selected_files.len(), state.file_names.len());
    }
    assert_eq!(selected(&state), vec!["/2.pdf", "/3.pdf", "/4.pdf"]);
}

#[test]
fn messages_can_be_copied() {
    let m = Message::Sent(Err("x".to_string()));
    match m.clone() {
        Message::Sent(Err(detail)) => assert_eq!(detail, "x"),
        other => panic!("unexpected: {:?}", other),
    }
    let m = Message::FilesPicked(Some(vec![picked("/a.pdf")]));
    match m.clone() {
        Message::FilesPicked(Some(files)) => {
            assert_eq!(files[0].file.path, Path::new("/a.pdf"));
            assert_eq!(files[0].file.key, key("/a.pdf"));
            assert_eq!(files[0].file_name.as_deref(), Some("a.pdf"));
            assert_eq!(files[0].extension.as_deref(), Some("pdf"));
        }
        other => panic!("unexpected: {:?}", other),
    }
}

#[test]
fn send_button_says_what_is_going_on() {
    let mut state = AppState::default();
    assert_eq!(state.send_label(), "Send");
    assert!(!state.can_send());
    state = state_with(&["/1.pdf"]);
    assert_eq!(state.send_label(), "Send");
    assert!(state.can_send());
    update(&mut state, Message::Send);
    assert_eq!(state.send_label(), "Sending...");
    assert!(!state.can_send());
    let mut many = state_with(&["/1.pdf", "/2.pdf", "/3.pdf", "/4.pdf", "/5.pdf", "/6.pdf", "/7.pdf"]);
    assert_eq!(many.send_label(), "Too many (7 > 5)");
    many.sending = true;
    assert_eq!(many.send_label(), "Too many (7 > 5)");
    let five = state_with(&["/1.pdf", "/2.pdf", "/3.pdf", "/4.pdf", "/5.pdf"]);
    assert!(five.can_send());
    assert_eq!(five.send_label(), "Send");
}

#[test]
fn status_lines_have_a_tone() {
    assert_eq!(status_tone("Error: invalid port number: abc"), StatusTone::Failure);
    assert_eq!(status_tone("Error:"), StatusTone::Failure);
    assert_eq!(status_tone("Too many attachments: 6 (max 5)"), StatusTone::Failure);
    assert_eq!(status_tone("Error saving settings: IO error: denied"), StatusTone::Plain);
    assert_eq!(status_tone("Sent 3 attachment(s)"), StatusTone::Success);
    assert_eq!(status_tone("Sent"), StatusTone::Plain);
    assert_eq!(status_tone("Sending..."), StatusTone::Plain);
    assert_eq!(status_tone("Settings saved successfully"), StatusTone::Plain);
    assert_eq!(status_tone(""), StatusTone::Plain);
    assert_eq!(status_tone("error: lower case"), StatusTone::Plain);
}

#[test]
fn status_lines_written_by_the_rules_get_their_tone() {
    let mut state = state_with(&["/1.pdf", "/2.pdf", "/3.pdf", "/4.pdf", "/5.pdf", "/6.pdf"]);
    update(&mut state, Message::Send);
    assert_eq!(status_tone(state.status.as_deref().unwrap()), StatusTone::Failure);
    update(&mut state, Message::Sent(Ok(2)));
    assert_eq!(status_tone(state.status.as_deref().unwrap()), StatusTone::Success);
    update(&mut state, Message::Sent(Err("refused".to_string())));
    assert_eq!(status_tone(state.status.as_deref().unwrap()), StatusTone::Failure);
}

#[test]
fn a_file_is_known_by_its_key_not_by_how_its_path_is_spelt() {
    let mut state = state_with(&["/a/one.pdf"]);
    let again = vec![picked("/a//one.pdf"), picked("/a/./one.pdf"), picked("/a/two.pdf")];
    update(&mut state, Message::FilesPicked(Some(again)));
    assert_eq!(selected(&state), vec!["/a/one.pdf", "/a/two.pdf"]);
    update(&mut state, Message::Remove(key("/a/.//two.pdf")));
    assert_eq!(selected(&state), vec!["/a/one.pdf"]);
    assert_eq!(state.file_names, vec!["one.pdf"]);
}

#[test]
fn the_path_is_handed_on_as_it_was_given() {
    let mut state = state_with(&["/a//odd/./one.pdf"]);
    match update(&mut state, Message::Send) {
        Action::SendMail { files, .. } => {
            assert_eq!(files[0].0.as_os_str(), "/a//odd/./one.pdf");
            assert_eq!(files[0].1, "one.pdf");
        }
        other => panic!("unexpected: {:?}", other),
    }
}

#[test]
fn removing_copies_of_a_message_remove_the_same_file() {
    let mut state = state_with(&["/a/one.pdf", "/a/two.pdf"]);
    let remove = Message::Remove(key("/a/one.pdf"));
    update(&mut state, remove.clone());
    assert_eq!(selected(&state), vec!["/a/two.pdf"]);
    update(&mut state, remove);
    assert_eq!(selected(&state), vec!["/a/two.pdf"]);
}
