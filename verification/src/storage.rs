//! User settings, the single credential slot in the platform's secure
//! storage, and the clipboard backup. The storage and the clipboard
//! themselves are reached by the caller; this module says what is handed to
//! them and what their answers mean.

use vstd::prelude::*;
use vstd::string::*;
use vstd::utf8::*;

verus! {

/// The user's configuration.
#[derive(Debug, PartialEq, Eq)]
pub struct AppSettings {
    pub model: String,
    pub source_lang: String,
    pub target_lang: String,
    pub enable_detection: bool,
    pub selection_min_len: usize,
    pub selection_max_len: usize,
    pub debounce_ms: u64,
}

impl AppSettings {
    /// The shortest accepted selection is no longer than the longest.
    pub open spec fn well_formed(&self) -> bool {
        self.selection_min_len <= self.selection_max_len
    }

    /// True of the settings that a fresh process starts with.
    pub open spec fn is_default(&self) -> bool {
        &&& self.model@ == "Qwen/Qwen2.5-7B-Instruct"@
        &&& self.source_lang@ == "自动"@
        &&& self.target_lang@ == "中文"@
        &&& self.enable_detection
        &&& self.selection_min_len == 1
        &&& self.selection_max_len == 5000
        &&& self.debounce_ms == 200
    }
}

impl Default for AppSettings {
    fn default() -> (settings: AppSettings)
        ensures
            settings.is_default(),
            settings.well_formed(),
    {
        AppSettings {
            model: String::from_str("Qwen/Qwen2.5-7B-Instruct"),
            source_lang: String::from_str("自动"),
            target_lang: String::from_str("中文"),
            enable_detection: true,
            selection_min_len: 1,
            selection_max_len: 5000,
            debounce_ms: 200,
        }
    }
}

impl Clone for AppSettings {
    fn clone(&self) -> (copy: AppSettings)
        ensures
            copy == *self,
    {
        AppSettings {
            model: self.model.clone(),
            source_lang: self.source_lang.clone(),
            target_lang: self.target_lang.clone(),
            enable_detection: self.enable_detection,
            selection_min_len: self.selection_min_len,
            selection_max_len: self.selection_max_len,
            debounce_ms: self.debounce_ms,
        }
    }
}

/// Why the credential slot or the clipboard could not be used.
#[derive(Debug, PartialEq, Eq)]
pub enum CredentialError {
    /// The platform has no secure storage.
    Unsupported,
    /// The platform's facility failed; the field is its own message.
    Windows(String),
}

pub enum CredentialErrorView {
    Unsupported,
    Windows(Seq<char>),
}

impl View for CredentialError {
    type V = CredentialErrorView;

    open spec fn view(&self) -> CredentialErrorView {
        match self {
            CredentialError::Unsupported => CredentialErrorView::Unsupported,
            CredentialError::Windows(m) => CredentialErrorView::Windows(m@),
        }
    }
}

/// The text that a credential error is shown with.
pub open spec fn credential_error_text(error: CredentialErrorView) -> Seq<char> {
    match error {
        CredentialErrorView::Unsupported => "unsupported platform"@,
        CredentialErrorView::Windows(m) => "windows error: "@ + m,
    }
}

impl Clone for CredentialError {
    fn clone(&self) -> (copy: CredentialError)
        ensures
            copy == *self,
    {
        match self {
            CredentialError::Unsupported => CredentialError::Unsupported,
            CredentialError::Windows(m) => CredentialError::Windows(m.clone()),
        }
    }
}

impl CredentialError {
    /// The error as a display string.
    pub fn message(&self) -> (text: String)
        ensures
            text@ == credential_error_text(self@),
    {
        match self {
            CredentialError::Unsupported => String::from_str("unsupported platform"),
            CredentialError::Windows(m) => String::from_str("windows error: ").concat(m.as_str()),
        }
    }
}

/// The identifier under which the one secret is kept.
pub open spec fn credential_target() -> Seq<char> {
    "silicon_translater_api_key"@
}

/// What `String::from_utf8_lossy` makes of a byte sequence.
pub uninterp spec fn lossy_text(bytes: Seq<u8>) -> Seq<char>;

/// Calls `String::from_utf8_lossy` and takes the text as an owned string.
/// The contract names the text, and claims that bytes which are valid UTF-8
/// decode to the characters they encode; of other bytes it claims nothing
/// beyond the name.
#[verifier::external_body]
fn decode_lossy(bytes: &[u8]) -> (text: String)
    ensures
        text@ == lossy_text(bytes@),
        valid_utf8(bytes@) ==> text@ == decode_utf8(bytes@),
{
    String::from_utf8_lossy(bytes).into_owned()
}

/// The text of a stored secret: bytes that are valid UTF-8 stand for the
/// characters they encode, other bytes for what the lossy conversion gives.
pub open spec fn secret_text(bytes: Seq<u8>) -> Seq<char> {
    if valid_utf8(bytes) {
        decode_utf8(bytes)
    } else {
        lossy_text(bytes)
    }
}

/// One write to the secure storage: the slot's identifier and the secret's
/// bytes.
#[derive(Debug, PartialEq, Eq)]
pub struct SecretWrite {
    pub target: String,
    pub blob: Vec<u8>,
}

/// Access to the platform's secure storage, which holds one secret.
#[derive(Debug, Clone, Copy, PartialEq, Eq, Structural)]
pub struct CredentialStore {
    /// Whether the platform has secure storage.
    pub supported: bool,
}

impl CredentialStore {
    pub fn new(supported: bool) -> (store: CredentialStore)
        ensures
            store.supported == supported,
    {
        CredentialStore { supported }
    }

    /// The bytes that are stored for a key: its UTF-8 encoding.
    pub open spec fn blob_of(key: Seq<char>) -> Seq<u8> {
        encode_utf8(key)
    }

    /// The key that is read where the storage answered with `stored`
    /// (`None`: it reported a failure or no credential).
    pub open spec fn key_of(&self, stored: Option<Seq<u8>>) -> Option<Seq<char>> {
        match stored {
            Some(bytes) if self.supported => Some(secret_text(bytes)),
            _ => None,
        }
    }

    /// The identifier of the slot.
    pub fn target(&self) -> (target: String)
        ensures
            target@ == credential_target(),
    {
        String::from_str("silicon_translater_api_key")
    }

    /// Prepares the write of a key. Without secure storage it fails with
    /// `Unsupported`; with it, the result is what goes to the storage.
    pub fn write_api_key(&self, api_key: &str) -> (out: Result<SecretWrite, CredentialError>)
        ensures
            out is Err <==> !self.supported,
            out matches Err(e) ==> e == CredentialError::Unsupported,
            out matches Ok(w) ==> w.target@ == credential_target() && w.blob@ == Self::blob_of(
                api_key@,
            ),
    {
        if self.supported {
            Ok(SecretWrite { target: self.target(), blob: api_key.as_bytes_vec() })
        } else {
            Err(CredentialError::Unsupported)
        }
    }

    /// The result of a write that the storage answered: its failure, with the
    /// storage's own message, is never swallowed.
    pub fn finish_write(&self, answer: Result<(), String>) -> (out: Result<(), CredentialError>)
        ensures
            out is Ok <==> answer is Ok,
            answer matches Err(m) ==> out == Err::<(), CredentialError>(CredentialError::Windows(m)),
    {
        match answer {
            Ok(()) => Ok(()),
            Err(m) => Err(CredentialError::Windows(m)),
        }
    }

    /// The key, given what the storage answered for the slot. Without secure
    /// storage, and where the storage had nothing to give, there is no key;
    /// neither is an error.
    pub fn read_api_key(&self, stored: Option<Vec<u8>>) -> (out: Result<
        Option<String>,
        CredentialError,
    >)
        ensures
            out is Ok,
            crate::api_client::text_of(out->Ok_0) == self.key_of(vec_view(stored)),
    {
        if !self.supported {
            return Ok(None);
        }
        match stored {
            Some(bytes) => Ok(Some(decode_lossy(bytes.as_slice()))),
            None => Ok(None),
        }
    }

    /// Round trip of a key: on a platform with secure storage, what
    /// `write_api_key` hands to the storage for a key, handed back by the
    /// storage, is read by `read_api_key` as that key.
    pub proof fn lemma_key_round_trip(self, key: Seq<char>)
        requires
            self.supported,
        ensures
            self.key_of(Some(Self::blob_of(key))) == Some(key),
    {
        encode_utf8_valid_utf8(key);
        encode_utf8_decode_utf8(key);
    }
}

/// The view of optional bytes.
pub open spec fn vec_view(stored: Option<Vec<u8>>) -> Option<Seq<u8>> {
    match stored {
        Some(bytes) => Some(bytes@),
        None => None,
    }
}

/// The clipboard's text, saved before the clipboard is borrowed.
#[derive(Debug, PartialEq, Eq)]
pub struct ClipboardBackup {
    pub text: Option<String>,
}

impl ClipboardBackup {
    /// Takes the backup from what the clipboard gave: its text, if it held
    /// any, or the message with which it refused to open.
    pub fn capture(clipboard: Result<Option<String>, String>) -> (out: Result<
        ClipboardBackup,
        CredentialError,
    >)
        ensures
            clipboard matches Ok(text) ==> out == Ok::<ClipboardBackup, CredentialError>(
                ClipboardBackup { text },
            ),
            clipboard matches Err(m) ==> out == Err::<ClipboardBackup, CredentialError>(
                CredentialError::Windows(m),
            ),
    {
        match clipboard {
            Ok(text) => Ok(ClipboardBackup { text }),
            Err(m) => Err(CredentialError::Windows(m)),
        }
    }

    /// The text to put back on the clipboard, if the backup holds one, given
    /// whether the clipboard opened.
    pub fn restore(&self, opened: Result<(), String>) -> (out: Result<
        Option<String>,
        CredentialError,
    >)
        ensures
            opened is Ok ==> out == Ok::<Option<String>, CredentialError>(self.text),
            opened matches Err(m) ==> out == Err::<Option<String>, CredentialError>(
                CredentialError::Windows(m),
            ),
    {
        match opened {
            Ok(()) => match &self.text {
                Some(text) => Ok(Some(text.clone())),
                None => Ok(None),
            },
            Err(m) => Err(CredentialError::Windows(m)),
        }
    }
}

} // verus!
