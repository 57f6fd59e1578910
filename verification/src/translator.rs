//! The orchestrator: it owns the settings, the gateway and the credential
//! store, and opens translation calls with the stored key.

use vstd::prelude::*;
use crate::api_client::{ApiClient, ApiError, HttpCall, Translation, TranslationRequest, default_endpoint};
use crate::storage::{AppSettings, CredentialError, CredentialStore};

verus! {

/// The key that a translation call is opened with, given what reading the
/// credential slot came to: a failed read counts as no key.
pub open spec fn usable_key(stored: Result<Option<String>, CredentialError>) -> Option<String> {
    match stored {
        Ok(Some(key)) => Some(key),
        _ => None,
    }
}

pub struct TranslatorCore {
    pub api_client: ApiClient,
    pub settings: AppSettings,
    pub credential_store: CredentialStore,
}

impl TranslatorCore {
    /// This orchestrator with its settings replaced as a whole.
    pub open spec fn with_settings(self, settings: AppSettings) -> TranslatorCore {
        TranslatorCore {
            api_client: self.api_client,
            settings,
            credential_store: self.credential_store,
        }
    }

    /// An orchestrator with default settings and the default endpoint, for a platform
    /// with or without secure storage.
    pub fn new(supported: bool) -> (translator: TranslatorCore)
        ensures
            translator.settings.is_default(),
            translator.settings.well_formed(),
            translator.api_client.endpoint@ == default_endpoint(),
            translator.credential_store.supported == supported,
    {
        TranslatorCore {
            api_client: ApiClient::new(),
            settings: AppSettings::default(),
            credential_store: CredentialStore::new(supported),
        }
    }

    /// Opens a translation call with the key read from the credential slot.
    /// Where the read failed or found no key, the call fails with
    /// `MissingApiKey` and nothing is handed out to send.
    pub fn translate_text(
        &self,
        request: TranslationRequest,
        stored_key: Result<Option<String>, CredentialError>,
    ) -> (out: Result<(HttpCall, Translation), ApiError>)
        ensures
            self.api_client.opens(request, usable_key(stored_key), out),
    {
        let api_key = match stored_key {
            Ok(Some(key)) => Some(key),
            _ => None,
        };
        self.api_client.translate(request, api_key)
    }

    /// Replaces the settings as a whole. Nothing is validated here.
    pub fn update_settings(&mut self, settings: AppSettings)
        ensures
            *final(self) == old(self).with_settings(settings),
    {
        self.settings = settings;
    }

    /// A copy of the current settings.
    pub fn load_settings(&self) -> (settings: AppSettings)
        ensures
            settings == self.settings,
    {
        self.settings.clone()
    }

    pub fn credential_store(&self) -> (store: &CredentialStore)
        ensures
            *store == self.credential_store,
    {
        &self.credential_store
    }

    /// Settings round trip: after `update_settings(s)`, `load_settings`
    /// returns `s`, whatever it held before and whether or not `s` is
    /// well formed.
    pub proof fn lemma_settings_round_trip(self, settings: AppSettings)
        ensures
            self.with_settings(settings).settings == settings,
            self.with_settings(settings).api_client == self.api_client,
            self.with_settings(settings).credential_store == self.credential_store,
    {
    }
}

/// What the command layer shares: the one orchestrator.
pub struct AppState {
    pub translator: TranslatorCore,
}

impl AppState {
    pub fn new(translator: TranslatorCore) -> (state: AppState)
        ensures
            state.translator == translator,
    {
        AppState { translator }
    }

    pub fn translator(&self) -> (translator: &TranslatorCore)
        ensures
            *translator == self.translator,
    {
        &self.translator
    }
}

} // verus!
