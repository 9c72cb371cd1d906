//! What the interface remembers between events.

use vstd::prelude::*;
use vstd::string::*;
use crate::attachment::MAX_ATTACHMENTS;
use crate::config::{
    default_settings,
    ConfigError,
    ConfigManager,
    ConfigManagerView,
    EmailSettings,
    EmailSettingsView,
};
use crate::path::{paths_view, FilePath, FilePathView};
use crate::text::{decimal, decimal_string, option_text, starts_with, strings_view};

verus! {

/// The state of the interface.
pub struct AppState {
    /// The selected files, in the order selected.
    pub selected_files: Vec<FilePath>,
    /// The display name of each selected file, position by position.
    pub file_names: Vec<String>,
    /// The line that tells the user what happened last.
    pub status: Option<String>,
    /// Whether a dispatch is under way.
    pub sending: bool,
    /// The position of the display name being edited.
    pub editing_index: Option<usize>,
    /// What stands in the edit field.
    pub editing_buffer: String,
    /// Whether the settings page is shown.
    pub show_settings: bool,
    pub settings: EmailSettings,
    pub config_manager: Option<ConfigManager>,
    /// Whether the settings differ from what was last saved.
    pub settings_changed: bool,
}

/// Mathematical model of an [`AppState`].
pub struct AppStateView {
    pub selected_files: Seq<FilePathView>,
    pub file_names: Seq<Seq<char>>,
    pub status: Option<Seq<char>>,
    pub sending: bool,
    pub editing_index: Option<nat>,
    pub editing_buffer: Seq<char>,
    pub show_settings: bool,
    pub settings: EmailSettingsView,
    pub config_manager: Option<ConfigManagerView>,
    pub settings_changed: bool,
}

/// The model of a position that may be absent.
pub open spec fn option_index(index: Option<usize>) -> Option<nat> {
    match index {
        Some(i) => Some(i as nat),
        None => None,
    }
}

/// The model of a store that may be absent.
pub open spec fn option_manager(manager: Option<ConfigManager>) -> Option<ConfigManagerView> {
    match manager {
        Some(m) => Some(m@),
        None => None,
    }
}

impl View for AppState {
    type V = AppStateView;

    open spec fn view(&self) -> AppStateView {
        AppStateView {
            selected_files: paths_view(self.selected_files@),
            file_names: strings_view(self.file_names@),
            status: option_text(self.status),
            sending: self.sending,
            editing_index: option_index(self.editing_index),
            editing_buffer: self.editing_buffer@,
            show_settings: self.show_settings,
            settings: self.settings@,
            config_manager: option_manager(self.config_manager),
            settings_changed: self.settings_changed,
        }
    }
}

/// The state that the interface starts in, given its settings and store.
pub open spec fn initial_state(
    settings: EmailSettingsView,
    config_manager: Option<ConfigManagerView>,
) -> AppStateView {
    AppStateView {
        selected_files: Seq::empty(),
        file_names: Seq::empty(),
        status: None,
        sending: false,
        editing_index: None,
        editing_buffer: Seq::empty(),
        show_settings: false,
        settings,
        config_manager,
        settings_changed: false,
    }
}

/// Whether every selected file has its display name.
pub open spec fn well_formed(s: AppStateView) -> bool {
    s.selected_files.len() == s.file_names.len()
}

/// Whether the selection can be sent now: it is not empty, it is within
/// the limit, and no dispatch is under way.
pub open spec fn sendable(s: AppStateView) -> bool {
    0 < s.selected_files.len() <= MAX_ATTACHMENTS && !s.sending
}

/// How a status line is to be shown.
#[derive(Debug, Clone, Copy, PartialEq, Eq, Structural)]
pub enum StatusTone {
    /// The line reports a failure or a refusal.
    Failure,
    /// The line reports a message that went out.
    Success,
    /// Anything else.
    Plain,
}

/// The tone of a status line, told by how the line begins.
pub open spec fn tone_of(status: Seq<char>) -> StatusTone {
    if "Error:"@.is_prefix_of(status) || "Too many"@.is_prefix_of(status) {
        StatusTone::Failure
    } else if "Sent "@.is_prefix_of(status) {
        StatusTone::Success
    } else {
        StatusTone::Plain
    }
}

/// Tells the tone of a status line.
pub fn status_tone(status: &str) -> (r: StatusTone)
    ensures
        r == tone_of(status@),
{
    if starts_with(status, "Error:") || starts_with(status, "Too many") {
        StatusTone::Failure
    } else if starts_with(status, "Sent ") {
        StatusTone::Success
    } else {
        StatusTone::Plain
    }
}

/// What the send button says.
pub open spec fn send_label_of(s: AppStateView) -> Seq<char> {
    if s.selected_files.len() > MAX_ATTACHMENTS {
        "Too many ("@ + decimal(s.selected_files.len()) + " > 5)"@
    } else if s.sending {
        "Sending..."@
    } else {
        "Send"@
    }
}

impl Default for AppState {
    fn default() -> (r: Self)
        ensures
            r@ == initial_state(default_settings(), None),
            well_formed(r@),
    {
        let r = AppState {
            selected_files: Vec::new(),
            file_names: Vec::new(),
            status: None,
            sending: false,
            editing_index: None,
            editing_buffer: String::new(),
            show_settings: false,
            settings: EmailSettings::default(),
            config_manager: None,
            settings_changed: false,
        };
        assert(r@.selected_files =~= Seq::empty());
        assert(r@.file_names =~= Seq::empty());
        r
    }
}

impl AppState {
    /// The state at startup. `loaded` says how loading the settings went
    /// where there is a store; a failure of any kind means the defaults.
    pub fn startup(
        config_manager: Option<ConfigManager>,
        loaded: Result<EmailSettings, ConfigError>,
    ) -> (r: Self)
        ensures
            r@ == initial_state(
                match (config_manager, loaded) {
                    (Some(_), Ok(s)) => s@,
                    _ => default_settings(),
                },
                option_manager(config_manager),
            ),
            well_formed(r@),
    {
        let mut state = AppState::default();
        if config_manager.is_some() {
            state.settings = EmailSettings::loaded_or_default(loaded);
        }
        state.config_manager = config_manager;
        state
    }

    /// The label of the send button.
    pub fn send_label(&self) -> (r: String)
        ensures
            r@ == send_label_of(self@),
    {
        if self.selected_files.len() > MAX_ATTACHMENTS {
            let count = decimal_string(self.selected_files.len());
            String::from_str("Too many (").concat(count.as_str()).concat(" > 5)")
        } else if self.sending {
            String::from_str("Sending...")
        } else {
            String::from_str("Send")
        }
    }

    /// Whether the selection can be sent now.
    pub fn can_send(&self) -> (r: bool)
        ensures
            r == sendable(self@),
    {
        self.selected_files.len() > 0 && self.selected_files.len() <= MAX_ATTACHMENTS
            && !self.sending
    }
}

} // verus!
