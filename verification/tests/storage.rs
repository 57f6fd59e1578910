use silicon_translater::commands::AppCommands;
use silicon_translater::api_client::{
    ApiError, Phase, Translation, TranslationRequest, TranslationResponse,
};
use silicon_translater::selection::{
    choose_selection, convert_rect_to_bounds, poll_selection, try_clipboard_selection,
    try_uia_selection, Delivery, SelectionBounds, SelectionEvent, SelectionSource,
    SelectionWatcher, Signal, CHANNEL_CAPACITY, TICK_MILLIS,
};
use silicon_translater::storage::{
    AppSettings, ClipboardBackup, CredentialError, CredentialStore, SecretWrite,
};
use silicon_translater::translator::{AppState, TranslatorCore};

fn custom_settings() -> AppSettings {
    AppSettings {
        model: "other".to_string(),
        source_lang: "en".to_string(),
        target_lang: "de".to_string(),
        enable_detection: false,
        selection_min_len: 3,
        selection_max_len: 40,
        debounce_ms: 75,
    }
}

fn request() -> TranslationRequest {
    TranslationRequest {
        text: "t".to_string(),
        source_lang: "a".to_string(),
        target_lang: "b".to_string(),
        model: "m".to_string(),
    }
}

#[test]
fn default_settings_have_the_documented_values() {
    let s = AppSettings::default();
    assert_eq!(s.model, "Qwen/Qwen2.5-7B-Instruct");
    assert_eq!(s.source_lang, "自动");
    assert_eq!(s.target_lang, "中文");
    assert!(s.enable_detection);
    assert_eq!(s.selection_min_len, 1);
    assert_eq!(s.selection_max_len, 5000);
    assert_eq!(s.debounce_ms, 200);
    assert!(s.selection_min_len <= s.selection_max_len);
}

#[test]
fn settings_round_trip() {
    let mut translator = TranslatorCore::new(false);
    assert_eq!(translator.load_settings(), AppSettings::default());
    translator.update_settings(custom_settings());
    assert_eq!(translator.load_settings(), custom_settings());
    assert_eq!(translator.load_settings(), custom_settings());
}

#[test]
fn settings_are_replaced_without_validation() {
    let mut translator = TranslatorCore::new(true);
    let mut odd = custom_settings();
    odd.selection_min_len = 9;
    odd.selection_max_len = 2;
    translator.update_settings(odd.clone());
    assert_eq!(translator.load_settings(), odd);
}

#[test]
fn write_on_unsupported_platform_fails() {
    let store = CredentialStore::new(false);
    assert_eq!(store.write_api_key("k"), Err(CredentialError::Unsupported));
}

#[test]
fn read_on_unsupported_platform_finds_nothing() {
    let store = CredentialStore::new(false);
    assert_eq!(store.read_api_key(None), Ok(None));
    assert_eq!(store.read_api_key(Some(b"k".to_vec())), Ok(None));
}

#[test]
fn write_prepares_target_and_bytes() {
    let store = CredentialStore::new(true);
    assert_eq!(
        store.write_api_key("sk-é"),
        Ok(SecretWrite {
            target: "silicon_translater_api_key".to_string(),
            blob: vec![0x73, 0x6b, 0x2d, 0xc3, 0xa9],
        })
    );
    assert_eq!(store.target(), "silicon_translater_api_key");
}

#[test]
fn credential_round_trip_on_supported_platform() {
    let store = CredentialStore::new(true);
    for key in ["sk-123", "", "密钥 🔑"] {
        let write = store.write_api_key(key).unwrap();
        assert_eq!(store.finish_write(Ok(())), Ok(()));
        assert_eq!(store.read_api_key(Some(write.blob)), Ok(Some(key.to_string())));
    }
}

#[test]
fn read_of_an_empty_slot_is_not_an_error() {
    let store = CredentialStore::new(true);
    assert_eq!(store.read_api_key(None), Ok(None));
}

#[test]
fn read_replaces_bytes_that_are_not_text() {
    let store = CredentialStore::new(true);
    assert_eq!(
        store.read_api_key(Some(vec![0x66, 0xff, 0x6f])),
        Ok(Some("f\u{fffd}o".to_string()))
    );
}

#[test]
fn write_failure_is_reported_with_the_platform_message() {
    let store = CredentialStore::new(true);
    assert_eq!(
        store.finish_write(Err("denied".to_string())),
        Err(CredentialError::Windows("denied".to_string()))
    );
}

#[test]
fn credential_errors_have_display_strings() {
    assert_eq!(CredentialError::Unsupported.message(), "unsupported platform");
    assert_eq!(
        CredentialError::Windows("E5".to_string()).message(),
        "windows error: E5"
    );
}

#[test]
fn clipboard_backup_keeps_and_returns_the_text() {
    let backup = ClipboardBackup::capture(Ok(Some("copied".to_string()))).unwrap();
    assert_eq!(backup.text, Some("copied".to_string()));
    assert_eq!(backup.restore(Ok(())), Ok(Some("copied".to_string())));
    let empty = ClipboardBackup::capture(Ok(None)).unwrap();
    assert_eq!(empty.restore(Ok(())), Ok(None));
}

#[test]
fn clipboard_failures_carry_the_platform_message() {
    assert_eq!(
        ClipboardBackup::capture(Err("busy".to_string())),
        Err(CredentialError::Windows("busy".to_string()))
    );
    let backup = ClipboardBackup { text: Some("x".to_string()) };
    assert_eq!(
        backup.restore(Err("locked".to_string())),
        Err(CredentialError::Windows("locked".to_string()))
    );
}

fn placeholder() -> SelectionEvent {
    SelectionEvent { text: String::new(), source: SelectionSource::OcrPlaceholder, bounds: None }
}

#[test]
fn idle_ticks_emit_one_placeholder_each() {
    let n = 7;
    let mut seen = Vec::new();
    for _ in 0..n {
        assert!(SelectionWatcher::keeps_running(Signal::Elapsed));
        let event = poll_selection(ClipboardBackup::capture(Ok(None))).unwrap().unwrap();
        seen.push(event);
    }
    assert_eq!(seen.len(), n);
    assert!(seen.iter().all(|e| *e == placeholder()));
}

#[test]
fn poll_fails_where_the_clipboard_backup_failed() {
    assert_eq!(
        poll_selection(Err(CredentialError::Windows("busy".to_string()))),
        Err(CredentialError::Windows("busy".to_string()))
    );
}

#[test]
fn detection_placeholders_find_nothing() {
    assert_eq!(try_uia_selection(), Ok(None));
    assert_eq!(try_clipboard_selection(Ok(ClipboardBackup { text: None })), Ok(None));
    assert_eq!(
        try_clipboard_selection(Err(CredentialError::Unsupported)),
        Err(CredentialError::Unsupported)
    );
}

#[test]
fn accessibility_wins_over_clipboard() {
    let uia = SelectionEvent {
        text: "a".to_string(),
        source: SelectionSource::UiAutomation,
        bounds: Some(convert_rect_to_bounds(1, 2, 3, 4)),
    };
    let clip = SelectionEvent {
        text: "c".to_string(),
        source: SelectionSource::ClipboardFallback,
        bounds: None,
    };
    assert_eq!(choose_selection(Some(uia.clone()), Some(clip.clone())), uia);
    assert_eq!(choose_selection(Some(uia.clone()), None), uia);
    assert_eq!(choose_selection(None, Some(clip.clone())), clip);
    assert_eq!(choose_selection(None, None), placeholder());
}

#[test]
fn bounds_keep_the_four_edges() {
    assert_eq!(
        convert_rect_to_bounds(-1, 2, 30, 40),
        SelectionBounds { left: -1, top: 2, right: 30, bottom: 40 }
    );
}

#[test]
fn watcher_stops_only_on_disconnect() {
    assert!(SelectionWatcher::keeps_running(Signal::Fired));
    assert!(SelectionWatcher::keeps_running(Signal::Elapsed));
    assert!(!SelectionWatcher::keeps_running(Signal::Disconnected));
    assert_eq!(SelectionWatcher::delivery(true), Delivery::Queued);
    assert_eq!(SelectionWatcher::delivery(false), Delivery::Dropped);
    assert_eq!(TICK_MILLIS, 250);
    assert_eq!(CHANNEL_CAPACITY, 32);
}

#[test]
fn translate_text_needs_a_readable_key() {
    let translator = TranslatorCore::new(true);
    assert_eq!(translator.translate_text(request(), Ok(None)), Err(ApiError::MissingApiKey));
    assert_eq!(
        translator.translate_text(request(), Err(CredentialError::Unsupported)),
        Err(ApiError::MissingApiKey)
    );
    let (call, state) = translator.translate_text(request(), Ok(Some("k9".to_string()))).unwrap();
    assert_eq!(call.bearer, "k9");
    assert_eq!(call.payload.messages[1].content, "translate the following text from a to b: t");
    assert_eq!(state, Translation { attempt: 1, phase: Phase::AwaitingStatus });
}

#[test]
fn commands_flatten_errors_to_strings() {
    let mut state = AppState::new(TranslatorCore::new(false));
    assert_eq!(
        AppCommands::translate(&state, request(), Ok(None)),
        Err("missing api key".to_string())
    );
    assert_eq!(
        AppCommands::translated(Err(ApiError::RateLimited)),
        Err("rate limited".to_string())
    );
    let done = TranslationResponse { translated_text: "x".to_string(), detected_source_lang: None };
    assert_eq!(AppCommands::translated(Ok(done.clone())), Ok(done));
    assert_eq!(AppCommands::set_api_key(&state, "k"), Err("unsupported platform".to_string()));
    assert_eq!(
        AppCommands::api_key_set(&state, Err("E".to_string())),
        Err("windows error: E".to_string())
    );
    assert_eq!(AppCommands::api_key_set(&state, Ok(())), Ok(()));
    assert_eq!(AppCommands::read_api_key(&state, Some(b"k".to_vec())), Ok(None));
    assert_eq!(AppCommands::save_settings(&mut state, custom_settings()), Ok(()));
    assert_eq!(AppCommands::load_settings(&state), Ok(custom_settings()));
    assert_eq!(state.translator().load_settings(), custom_settings());
}

#[test]
fn commands_reach_the_credential_slot_where_supported() {
    let state = AppState::new(TranslatorCore::new(true));
    let write = AppCommands::set_api_key(&state, "sk").unwrap();
    assert_eq!(write.target, "silicon_translater_api_key");
    assert_eq!(AppCommands::read_api_key(&state, Some(write.blob)), Ok(Some("sk".to_string())));
    assert_eq!(AppCommands::read_api_key(&state, None), Ok(None));
    assert!(state.translator().credential_store().supported);
}
