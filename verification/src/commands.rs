//! The command surface offered to the user interface. Every error is
//! flattened to its display string at this boundary.

use vstd::prelude::*;
use crate::api_client::{
    ApiError, ApiErrorView, HttpCall, Translation, TranslationRequest, TranslationResponse,
    api_error_text, text_of,
};
use crate::storage::{
    AppSettings, CredentialError, CredentialErrorView, CredentialStore, SecretWrite,
    credential_error_text, credential_target, vec_view,
};
use crate::translator::{AppState, usable_key};

verus! {

pub struct AppCommands;

impl AppCommands {
    /// The command surface for a credential store.
    pub fn from(_value: CredentialStore) -> (commands: AppCommands) {
        AppCommands
    }

    /// Opens a translation call with the stored key. Without a usable key
    /// the result is the display string of `MissingApiKey`.
    pub fn translate(
        state: &AppState,
        request: TranslationRequest,
        stored_key: Result<Option<String>, CredentialError>,
    ) -> (out: Result<(HttpCall, Translation), String>)
        ensures
            usable_key(stored_key) is None ==> out is Err && out->Err_0@ == api_error_text(
                ApiErrorView::MissingApiKey,
            ),
            usable_key(stored_key) is Some ==> out is Ok && state.translator.api_client.opens(
                request,
                usable_key(stored_key),
                Ok(out->Ok_0),
            ),
    {
        match state.translator().translate_text(request, stored_key) {
            Ok(begun) => Ok(begun),
            Err(error) => Err(error.message()),
        }
    }

    /// The result of a finished call as the interface sees it: the
    /// translation unchanged, or the error's display string.
    pub fn translated(result: Result<TranslationResponse, ApiError>) -> (out: Result<
        TranslationResponse,
        String,
    >)
        ensures
            result matches Ok(response) ==> out == Ok::<TranslationResponse, String>(response),
            result matches Err(error) ==> out is Err && out->Err_0@ == api_error_text(error@),
    {
        match result {
            Ok(response) => Ok(response),
            Err(error) => Err(error.message()),
        }
    }

    /// Replaces the settings as a whole; it cannot fail.
    pub fn save_settings(state: &mut AppState, settings: AppSettings) -> (out: Result<(), String>)
        ensures
            out is Ok,
            final(state).translator == old(state).translator.with_settings(settings),
    {
        state.translator.update_settings(settings);
        Ok(())
    }

    /// A copy of the settings; it cannot fail.
    pub fn load_settings(state: &AppState) -> (out: Result<AppSettings, String>)
        ensures
            out == Ok::<AppSettings, String>(state.translator.settings),
    {
        Ok(state.translator().load_settings())
    }

    /// Prepares the write of a key; without secure storage the result is the
    /// display string of `Unsupported`.
    pub fn set_api_key(state: &AppState, api_key: &str) -> (out: Result<SecretWrite, String>)
        ensures
            out is Ok <==> state.translator.credential_store.supported,
            out matches Err(text) ==> text@ == credential_error_text(
                CredentialErrorView::Unsupported,
            ),
            out matches Ok(w) ==> w.target@ == credential_target() && w.blob@
                == CredentialStore::blob_of(api_key@),
    {
        match state.translator().credential_store().write_api_key(api_key) {
            Ok(write) => Ok(write),
            Err(error) => Err(error.message()),
        }
    }

    /// The result of a write that the storage answered; its failure is shown
    /// with the storage's own message.
    pub fn api_key_set(state: &AppState, answer: Result<(), String>) -> (out: Result<(), String>)
        ensures
            out is Ok <==> answer is Ok,
            answer matches Err(m) ==> out->Err_0@ == credential_error_text(
                CredentialErrorView::Windows(m@),
            ),
    {
        match state.translator().credential_store().finish_write(answer) {
            Ok(()) => Ok(()),
            Err(error) => Err(error.message()),
        }
    }

    /// The stored key, if any; at this boundary a key that cannot be read
    /// is a key that is absent, never an error.
    pub fn read_api_key(state: &AppState, stored: Option<Vec<u8>>) -> (out: Result<
        Option<String>,
        String,
    >)
        ensures
            out is Ok,
            text_of(out->Ok_0) == state.translator.credential_store.key_of(vec_view(stored)),
    {
        match state.translator().credential_store().read_api_key(stored) {
            Ok(value) => Ok(value),
            Err(_) => Ok(None),
        }
    }
}

} // verus!
