//! The settings record and the encrypted store that keeps it at rest.
//!
//! The store works on bytes. A caller hands it the serialized settings and
//! gets back the two base64 texts of the persisted document; on the way
//! back it hands in those two texts and gets the serialized settings, or
//! the reason why they could not be recovered. Reading and writing the file
//! and turning bytes into a record are the caller's part.

use vstd::prelude::*;
use vstd::string::*;
use crate::cipher::{
    aes_gcm_decrypt,
    aes_gcm_encrypt,
    aes_gcm_opened,
    aes_gcm_sealed,
    base64_bytes,
    base64_decode,
    base64_encode,
    base64_text,
    random_nonce,
    MAX_BASE64_INPUT,
    MAX_PLAINTEXT_LEN,
    NONCE_LEN,
    TAG_LEN,
};
use crate::key::{derive_key, derived_key};
use crate::path::{joined, path_joined};
use std::path::PathBuf;

verus! {

/// Why a settings operation failed. Every variant but the last carries a
/// description for display.
#[derive(Debug)]
pub enum ConfigError {
    /// The settings file could not be read or written.
    Io(String),
    /// A stored document or record is not in the expected format.
    Serde(String),
    /// The settings could not be encrypted.
    Encryption(String),
    /// The stored settings could not be decoded or decrypted.
    Decryption(String),
    /// The platform names no configuration directory.
    ConfigDirNotFound,
}

/// Mathematical model of a [`ConfigError`].
pub enum ConfigErrorView {
    Io(Seq<char>),
    Serde(Seq<char>),
    Encryption(Seq<char>),
    Decryption(Seq<char>),
    ConfigDirNotFound,
}

impl View for ConfigError {
    type V = ConfigErrorView;

    open spec fn view(&self) -> ConfigErrorView {
        match self {
            ConfigError::Io(d) => ConfigErrorView::Io(d@),
            ConfigError::Serde(d) => ConfigErrorView::Serde(d@),
            ConfigError::Encryption(d) => ConfigErrorView::Encryption(d@),
            ConfigError::Decryption(d) => ConfigErrorView::Decryption(d@),
            ConfigError::ConfigDirNotFound => ConfigErrorView::ConfigDirNotFound,
        }
    }
}

/// The text that describes an error to the user.
pub open spec fn config_error_text(e: ConfigErrorView) -> Seq<char> {
    match e {
        ConfigErrorView::Io(d) => "IO error: "@ + d,
        ConfigErrorView::Serde(d) => "Serialization error: "@ + d,
        ConfigErrorView::Encryption(d) => "Encryption error: "@ + d,
        ConfigErrorView::Decryption(d) => "Decryption error: "@ + d,
        ConfigErrorView::ConfigDirNotFound => "Config directory not found"@,
    }
}

impl ConfigError {
    /// Describes the error for display.
    pub fn message(&self) -> (r: String)
        ensures
            r@ == config_error_text(self@),
    {
        match self {
            ConfigError::Io(d) => String::from_str("IO error: ").concat(d.as_str()),
            ConfigError::Serde(d) => String::from_str("Serialization error: ").concat(d.as_str()),
            ConfigError::Encryption(d) => String::from_str("Encryption error: ").concat(
                d.as_str(),
            ),
            ConfigError::Decryption(d) => String::from_str("Decryption error: ").concat(
                d.as_str(),
            ),
            ConfigError::ConfigDirNotFound => String::from_str("Config directory not found"),
        }
    }
}

/// The settings of the outbound mail account, as the user enters them.
#[derive(Debug)]
pub struct EmailSettings {
    pub smtp_host: String,
    pub smtp_port: String,
    pub from_email: String,
    pub to_email: String,
    pub app_password: String,
}

/// Mathematical model of [`EmailSettings`].
pub struct EmailSettingsView {
    pub smtp_host: Seq<char>,
    pub smtp_port: Seq<char>,
    pub from_email: Seq<char>,
    pub to_email: Seq<char>,
    pub app_password: Seq<char>,
}

impl View for EmailSettings {
    type V = EmailSettingsView;

    open spec fn view(&self) -> EmailSettingsView {
        EmailSettingsView {
            smtp_host: self.smtp_host@,
            smtp_port: self.smtp_port@,
            from_email: self.from_email@,
            to_email: self.to_email@,
            app_password: self.app_password@,
        }
    }
}

/// The settings a fresh installation starts from: a common relay and its
/// submission port, with every credential field empty.
pub open spec fn default_settings() -> EmailSettingsView {
    EmailSettingsView {
        smtp_host: "smtp.gmail.com"@,
        smtp_port: "587"@,
        from_email: Seq::empty(),
        to_email: Seq::empty(),
        app_password: Seq::empty(),
    }
}

impl Default for EmailSettings {
    fn default() -> (r: Self)
        ensures
            r@ == default_settings(),
    {
        EmailSettings {
            smtp_host: String::from_str("smtp.gmail.com"),
            smtp_port: String::from_str("587"),
            from_email: String::new(),
            to_email: String::new(),
            app_password: String::new(),
        }
    }
}

impl Clone for EmailSettings {
    fn clone(&self) -> (r: Self)
        ensures
            r@ == self@,
    {
        EmailSettings {
            smtp_host: self.smtp_host.clone(),
            smtp_port: self.smtp_port.clone(),
            from_email: self.from_email.clone(),
            to_email: self.to_email.clone(),
            app_password: self.app_password.clone(),
        }
    }
}

impl EmailSettings {
    /// The settings to start with, given how loading them went: what was
    /// loaded, or the defaults where loading failed for whatever reason.
    pub fn loaded_or_default(loaded: Result<EmailSettings, ConfigError>) -> (r: Self)
        ensures
            r@ == match loaded {
                Ok(s) => s@,
                Err(_) => default_settings(),
            },
    {
        match loaded {
            Ok(s) => s,
            Err(_) => EmailSettings::default(),
        }
    }
}

/// The persisted document: ciphertext and nonce, each as base64 text.
#[derive(Debug)]
pub struct EncryptedConfig {
    pub data: String,
    pub nonce: String,
}

/// Mathematical model of an [`EncryptedConfig`].
pub struct EncryptedConfigView {
    pub data: Seq<char>,
    pub nonce: Seq<char>,
}

impl View for EncryptedConfig {
    type V = EncryptedConfigView;

    open spec fn view(&self) -> EncryptedConfigView {
        EncryptedConfigView { data: self.data@, nonce: self.nonce@ }
    }
}

/// The longest ciphertext that is turned into text: the longest whose
/// base64 text a string can hold.
pub open spec fn max_encoded_len() -> int {
    MAX_BASE64_INPUT as int
}

/// What sealing `plaintext` under `key` with `nonce` gives.
pub open spec fn sealed_config(key: Seq<u8>, nonce: Seq<u8>, plaintext: Seq<u8>) -> Result<
    EncryptedConfigView,
    ConfigErrorView,
> {
    if plaintext.len() > MAX_PLAINTEXT_LEN {
        Err(ConfigErrorView::Encryption("aead::Error"@))
    } else if plaintext.len() + TAG_LEN > max_encoded_len() {
        Err(ConfigErrorView::Encryption("ciphertext too large to encode"@))
    } else {
        Ok(
            EncryptedConfigView {
                data: base64_text(aes_gcm_sealed(key, nonce, plaintext)),
                nonce: base64_text(nonce),
            },
        )
    }
}

/// What opening a stored document under `key` gives: the plaintext, or
/// the first reason in this order why there is none: the nonce is not
/// base64, it is not 12 bytes long, the data is not base64, the cipher
/// does not authenticate the data.
pub open spec fn opened_config(key: Seq<u8>, stored: EncryptedConfigView) -> Result<
    Seq<u8>,
    ConfigErrorView,
> {
    match base64_bytes(stored.nonce) {
        Err(d) => Err(ConfigErrorView::Decryption(d)),
        Ok(nonce) => if nonce.len() != NONCE_LEN {
            Err(ConfigErrorView::Decryption("nonce must be 12 bytes"@))
        } else {
            match base64_bytes(stored.data) {
                Err(d) => Err(ConfigErrorView::Decryption(d)),
                Ok(ciphertext) => match aes_gcm_opened(key, nonce, ciphertext) {
                    None => Err(ConfigErrorView::Decryption("aead::Error"@)),
                    Some(plaintext) => Ok(plaintext),
                },
            }
        },
    }
}

/// Whether the nonce text of a stored document is the base64 text of
/// `nonce`, so that the document tells which nonce sealed it.
pub open spec fn names_nonce(stored: EncryptedConfigView, nonce: Seq<u8>) -> bool {
    base64_bytes(stored.nonce) is Ok && base64_bytes(stored.nonce)->Ok_0 == nonce
}

/// Whether the data text of a stored document decodes to a ciphertext
/// for a plaintext of `plaintext_len` bytes: that many bytes and the
/// authentication tag after them.
pub open spec fn holds_tagged(stored: EncryptedConfigView, plaintext_len: nat) -> bool {
    base64_bytes(stored.data) is Ok && base64_bytes(stored.data)->Ok_0.len() == plaintext_len
        + TAG_LEN
}

/// Two documents sealed under different nonces differ, whatever was
/// sealed: encrypting the same settings twice gives two documents unless
/// the same nonce was drawn twice.
pub proof fn lemma_distinct_nonces_distinct_documents(
    first: EncryptedConfigView,
    first_nonce: Seq<u8>,
    second: EncryptedConfigView,
    second_nonce: Seq<u8>,
)
    requires
        names_nonce(first, first_nonce),
        names_nonce(second, second_nonce),
        first_nonce != second_nonce,
    ensures
        first != second,
        first.nonce != second.nonce,
{
}

/// Opening a document gives a plaintext only where both texts decode, the
/// nonce has its length, and the cipher authenticates the data under the
/// key and that nonce; the plaintext is then the one that the cipher gives,
/// and every other outcome is a decryption failure. A document that was
/// altered is therefore never opened to anything but what the cipher
/// itself accepts.
pub proof fn lemma_open_gives_only_authenticated_plaintext(
    key: Seq<u8>,
    stored: EncryptedConfigView,
)
    ensures
        opened_config(key, stored) is Ok <==> (base64_bytes(stored.nonce) is Ok && base64_bytes(
            stored.nonce,
        )->Ok_0.len() == NONCE_LEN && base64_bytes(stored.data) is Ok && aes_gcm_opened(
            key,
            base64_bytes(stored.nonce)->Ok_0,
            base64_bytes(stored.data)->Ok_0,
        ) is Some),
        opened_config(key, stored) is Ok ==> Some(opened_config(key, stored)->Ok_0)
            == aes_gcm_opened(
            key,
            base64_bytes(stored.nonce)->Ok_0,
            base64_bytes(stored.data)->Ok_0,
        ),
        opened_config(key, stored) is Err ==> opened_config(key, stored)->Err_0 is Decryption,
{
}

/// The model of the outcome of a seal.
pub open spec fn seal_outcome(r: Result<EncryptedConfig, ConfigError>) -> Result<
    EncryptedConfigView,
    ConfigErrorView,
> {
    match r {
        Ok(c) => Ok(c@),
        Err(e) => Err(e@),
    }
}

/// The model of the outcome of an open.
pub open spec fn open_outcome(r: Result<Vec<u8>, ConfigError>) -> Result<
    Seq<u8>,
    ConfigErrorView,
> {
    match r {
        Ok(p) => Ok(p@),
        Err(e) => Err(e@),
    }
}

/// The settings file below a configuration directory: `settings.json` in
/// the directory `send-to-goodnotes`.
pub open spec fn settings_path(config_dir: PathBuf) -> PathBuf {
    path_joined(path_joined(config_dir, "send-to-goodnotes"@), "settings.json"@)
}

/// What loading gives where it succeeds.
#[derive(Debug)]
pub enum Loaded {
    /// There is no stored document: these are the default settings.
    Defaults(EmailSettings),
    /// The serialized settings that the stored document opened to.
    Stored(Vec<u8>),
}

/// Mathematical model of a [`Loaded`].
pub enum LoadedView {
    Defaults(EmailSettingsView),
    Stored(Seq<u8>),
}

impl View for Loaded {
    type V = LoadedView;

    open spec fn view(&self) -> LoadedView {
        match self {
            Loaded::Defaults(s) => LoadedView::Defaults(s@),
            Loaded::Stored(p) => LoadedView::Stored(p@),
        }
    }
}

/// What loading gives under `key`, given the stored document or its
/// absence: no document means the defaults and is no error; a document
/// is opened as [`opened_config`] says.
pub open spec fn loaded_config(key: Seq<u8>, stored: Option<EncryptedConfigView>) -> Result<
    LoadedView,
    ConfigErrorView,
> {
    match stored {
        None => Ok(LoadedView::Defaults(default_settings())),
        Some(document) => match opened_config(key, document) {
            Ok(plaintext) => Ok(LoadedView::Stored(plaintext)),
            Err(e) => Err(e),
        },
    }
}

/// The model of the outcome of a load.
pub open spec fn load_outcome(r: Result<Loaded, ConfigError>) -> Result<
    LoadedView,
    ConfigErrorView,
> {
    match r {
        Ok(l) => Ok(l@),
        Err(e) => Err(e@),
    }
}

/// The model of a stored document that may be absent.
pub open spec fn option_document(stored: Option<&EncryptedConfig>) -> Option<EncryptedConfigView> {
    match stored {
        Some(d) => Some(d@),
        None => None,
    }
}

/// Calls `whoami::username` for the name of the user the process runs as.
///
/// Nothing is relied on: the name is whatever the system reports.
#[verifier::external_body]
fn current_username() -> (r: String) {
    whoami::username()
}

/// The settings store: where the document lives and the key that seals it.
/// The key is derived anew whenever a store is built and is never written
/// anywhere.
pub struct ConfigManager {
    config_path: PathBuf,
    key: [u8; 32],
}

/// Mathematical model of a [`ConfigManager`].
pub struct ConfigManagerView {
    pub config_path: PathBuf,
    pub key: Seq<u8>,
}

impl View for ConfigManager {
    type V = ConfigManagerView;

    closed spec fn view(&self) -> ConfigManagerView {
        ConfigManagerView { config_path: self.config_path, key: self.key@ }
    }
}

impl Clone for ConfigManager {
    fn clone(&self) -> (r: Self)
        ensures
            r@ == self@,
    {
        ConfigManager { config_path: self.config_path.clone(), key: self.key }
    }
}

impl ConfigManager {
    /// Builds the store for the user the process runs as. `config_dir` is
    /// the configuration directory of the platform, or `None` where it
    /// names none. The settings file is `settings.json` in the directory
    /// `send-to-goodnotes` below it.
    pub fn new(config_dir: Option<PathBuf>) -> (r: Result<Self, ConfigError>)
        ensures
            config_dir is None ==> (r matches Err(e) && e@ == ConfigErrorView::ConfigDirNotFound),
            config_dir is Some ==> (r matches Ok(m) && exists|identity: Seq<char>|
                m@.key == derived_key(vstd::utf8::encode_utf8(identity))),
            config_dir matches Some(dir) ==> (r matches Ok(m) && m@.config_path
                == settings_path(dir)),
    {
        match config_dir {
            None => Err(ConfigError::ConfigDirNotFound),
            Some(dir) => {
                let directory = joined(&dir, "send-to-goodnotes");
                let config_path = joined(&directory, "settings.json");
                let identity = current_username();
                Ok(ConfigManager::with_identity(config_path, identity.as_str()))
            },
        }
    }

    /// Builds the store for a given settings file and identity.
    pub fn with_identity(config_path: PathBuf, identity: &str) -> (r: Self)
        ensures
            r@.config_path == config_path,
            r@.key == derived_key(identity.spec_bytes()),
    {
        ConfigManager { config_path, key: derive_key(identity) }
    }

    /// The path of the settings file.
    pub fn config_path(&self) -> (r: &PathBuf)
        ensures
            *r == self@.config_path,
    {
        &self.config_path
    }

    /// Seals `plaintext` with a given nonce. A nonce must never be used
    /// twice under one key: [`ConfigManager::save_settings`] draws a fresh
    /// one for every call and is what a caller normally wants.
    pub fn seal(&self, nonce: &[u8; 12], plaintext: &[u8]) -> (r: Result<
        EncryptedConfig,
        ConfigError,
    >)
        ensures
            seal_outcome(r) == sealed_config(self@.key, nonce@, plaintext@),
            r matches Ok(c) ==> (opened_config(self@.key, c@) matches Ok(p) && p == plaintext@),
            r matches Ok(c) ==> names_nonce(c@, nonce@),
            r matches Ok(c) ==> holds_tagged(c@, plaintext@.len()),
    {
        match aes_gcm_encrypt(&self.key, nonce, plaintext) {
            Err(detail) => Err(ConfigError::Encryption(detail)),
            Ok(ciphertext) => {
                if ciphertext.len() > MAX_BASE64_INPUT {
                    Err(
                        ConfigError::Encryption(
                            String::from_str("ciphertext too large to encode"),
                        ),
                    )
                } else {
                    let data = base64_encode(ciphertext.as_slice());
                    let nonce_text = base64_encode(nonce.as_slice());
                    Ok(EncryptedConfig { data, nonce: nonce_text })
                }
            },
        }
    }

    /// Seals the serialized settings under a fresh random nonce, for the
    /// caller to persist. Whatever nonce is drawn, the document opens again
    /// to `plaintext` under this store.
    pub fn save_settings(&self, plaintext: &[u8]) -> (r: Result<EncryptedConfig, ConfigError>)
        ensures
            r matches Ok(c) ==> {
                &&& (opened_config(self@.key, c@) matches Ok(p) && p == plaintext@)
                &&& holds_tagged(c@, plaintext@.len())
                &&& exists|nonce: Seq<u8>|
                    nonce.len() == NONCE_LEN && names_nonce(c@, nonce) && #[trigger] sealed_config(
                        self@.key,
                        nonce,
                        plaintext@,
                    ) == seal_outcome(r)
            },
            r matches Err(e) ==> e@ is Encryption,
    {
        match random_nonce() {
            Err(detail) => Err(ConfigError::Encryption(detail)),
            Ok(nonce) => self.seal(&nonce, plaintext),
        }
    }

    /// Loads from what reading the settings file gave: `None` where there
    /// is no file, which means the default settings, or the stored
    /// document, which is opened.
    pub fn load(&self, stored: Option<&EncryptedConfig>) -> (r: Result<Loaded, ConfigError>)
        ensures
            load_outcome(r) == loaded_config(self@.key, option_document(stored)),
    {
        match stored {
            None => Ok(Loaded::Defaults(EmailSettings::default())),
            Some(document) => match self.load_settings(document) {
                Ok(plaintext) => Ok(Loaded::Stored(plaintext)),
                Err(e) => Err(e),
            },
        }
    }

    /// Opens a stored document: decodes both texts and decrypts, giving
    /// the serialized settings.
    pub fn load_settings(&self, stored: &EncryptedConfig) -> (r: Result<Vec<u8>, ConfigError>)
        ensures
            open_outcome(r) == opened_config(self@.key, stored@),
    {
        let nonce = match base64_decode(stored.nonce.as_str()) {
            Err(detail) => { return Err(ConfigError::Decryption(detail)); },
            Ok(bytes) => bytes,
        };
        if nonce.len() != NONCE_LEN {
            return Err(ConfigError::Decryption(String::from_str("nonce must be 12 bytes")));
        }
        let ciphertext = match base64_decode(stored.data.as_str()) {
            Err(detail) => { return Err(ConfigError::Decryption(detail)); },
            Ok(bytes) => bytes,
        };
        match aes_gcm_decrypt(&self.key, nonce.as_slice(), ciphertext.as_slice()) {
            Err(detail) => Err(ConfigError::Decryption(detail)),
            Ok(plaintext) => Ok(plaintext),
        }
    }
}

} // verus!
