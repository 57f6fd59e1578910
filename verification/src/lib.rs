//! Decision logic of a background translation assistant: the retry policy of
//! the translation call, the selection watcher's tick, the credential slot and
//! the shared settings.

pub mod api_client;
pub mod commands;
pub mod retry_laws;
pub mod selection;
pub mod storage;
pub mod translator;
