//! Selection events and what the watcher decides on each wake-up. The wait,
//! the detection capabilities and the channel are the caller's; this module
//! says which event a tick produces.

use vstd::prelude::*;
use crate::storage::{ClipboardBackup, CredentialError};

verus! {

/// Milliseconds between two ticks of the watcher.
pub const TICK_MILLIS: u64 = 250;

/// Events that may wait in the channel to the consumer.
pub const CHANNEL_CAPACITY: usize = 32;

/// Screen rectangle of a selection.
#[derive(Debug, Clone, Copy, PartialEq, Eq, Structural)]
pub struct SelectionBounds {
    pub left: i32,
    pub top: i32,
    pub right: i32,
    pub bottom: i32,
}

/// Which capability produced an event.
#[derive(Debug, Clone, Copy, PartialEq, Eq, Structural)]
pub enum SelectionSource {
    /// The accessibility capability.
    UiAutomation,
    /// The clipboard fallback.
    ClipboardFallback,
    /// Neither was available: the event is a placeholder.
    OcrPlaceholder,
}

/// A detected selection.
#[derive(Debug, Clone, PartialEq, Eq)]
pub struct SelectionEvent {
    pub text: String,
    pub source: SelectionSource,
    pub bounds: Option<SelectionBounds>,
}

pub struct SelectionEventView {
    pub text: Seq<char>,
    pub source: SelectionSource,
    pub bounds: Option<SelectionBounds>,
}

impl View for SelectionEvent {
    type V = SelectionEventView;

    open spec fn view(&self) -> SelectionEventView {
        SelectionEventView { text: self.text@, source: self.source, bounds: self.bounds }
    }
}

/// The view of an optional event.
pub open spec fn event_of(event: Option<SelectionEvent>) -> Option<SelectionEventView> {
    match event {
        Some(e) => Some(e@),
        None => None,
    }
}

/// The event that stands for "nothing available": no text, no bounds.
pub open spec fn placeholder() -> SelectionEventView {
    SelectionEventView {
        text: Seq::empty(),
        source: SelectionSource::OcrPlaceholder,
        bounds: None,
    }
}

/// The event of one tick: what the accessibility capability found, else what
/// the clipboard fallback found, else the placeholder.
pub open spec fn chosen(
    automation: Option<SelectionEventView>,
    clipboard: Option<SelectionEventView>,
) -> SelectionEventView {
    match automation {
        Some(e) => e,
        None => match clipboard {
            Some(e) => e,
            None => placeholder(),
        },
    }
}

/// The events of a run of ticks, one per tick, in order; each tick is given
/// by what the two capabilities found.
pub open spec fn emitted(
    ticks: Seq<(Option<SelectionEventView>, Option<SelectionEventView>)>,
) -> Seq<SelectionEventView> {
    Seq::new(ticks.len(), |i: int| chosen(ticks[i].0, ticks[i].1))
}

/// While nothing is detected, every tick still yields an event: over any
/// number of ticks on which neither capability finds a selection, the watcher
/// emits exactly that many events, each of them the placeholder.
pub proof fn lemma_idle_ticks_emit_placeholders(
    ticks: Seq<(Option<SelectionEventView>, Option<SelectionEventView>)>,
)
    requires
        forall|i: int| 0 <= i < ticks.len() ==> (#[trigger] ticks[i]).0 is None && ticks[i].1 is None,
    ensures
        emitted(ticks).len() == ticks.len(),
        forall|i: int| 0 <= i < ticks.len() ==> #[trigger] emitted(ticks)[i] == placeholder(),
{
}

/// Builds the bounds of a rectangle given by its four edges.
pub fn convert_rect_to_bounds(left: i32, top: i32, right: i32, bottom: i32) -> (bounds:
    SelectionBounds)
    ensures
        bounds == (SelectionBounds { left, top, right, bottom }),
{
    SelectionBounds { left, top, right, bottom }
}

/// The accessibility lookup. No such capability is wired in: it finds nothing.
pub fn try_uia_selection() -> (out: Result<Option<SelectionEvent>, CredentialError>)
    ensures
        out == Ok::<Option<SelectionEvent>, CredentialError>(None),
{
    Ok(None)
}

/// The clipboard fallback, given the backup taken of the clipboard. A backup
/// that failed is the tick's failure; otherwise the fallback finds nothing.
pub fn try_clipboard_selection(captured: Result<ClipboardBackup, CredentialError>) -> (out: Result<
    Option<SelectionEvent>,
    CredentialError,
>)
    ensures
        captured is Ok ==> out == Ok::<Option<SelectionEvent>, CredentialError>(None),
        captured matches Err(e) ==> out == Err::<Option<SelectionEvent>, CredentialError>(e),
{
    match captured {
        Ok(_) => Ok(None),
        Err(e) => Err(e),
    }
}

/// Picks the event of a tick from what the two capabilities found.
pub fn choose_selection(automation: Option<SelectionEvent>, clipboard: Option<SelectionEvent>) -> (event:
    SelectionEvent)
    ensures
        event@ == chosen(event_of(automation), event_of(clipboard)),
{
    match automation {
        Some(e) => e,
        None => match clipboard {
            Some(e) => e,
            None => SelectionEvent {
                text: String::new(),
                source: SelectionSource::OcrPlaceholder,
                bounds: None,
            },
        },
    }
}

/// One tick's detection: the accessibility lookup, then the clipboard
/// fallback, then the placeholder. It yields an event unless the clipboard
/// backup failed.
pub fn poll_selection(captured: Result<ClipboardBackup, CredentialError>) -> (out: Result<
    Option<SelectionEvent>,
    CredentialError,
>)
    ensures
        captured is Ok ==> out is Ok && event_of(out->Ok_0) == Some(chosen(None, None)),
        captured matches Err(e) ==> out == Err::<Option<SelectionEvent>, CredentialError>(e),
{
    let automation = match try_uia_selection() {
        Ok(found) => found,
        Err(e) => {
            return Err(e);
        },
    };
    let clipboard = match try_clipboard_selection(captured) {
        Ok(found) => found,
        Err(e) => {
            return Err(e);
        },
    };
    Ok(Some(choose_selection(automation, clipboard)))
}

/// What woke the watcher.
#[derive(Debug, Clone, Copy, PartialEq, Eq, Structural)]
pub enum Signal {
    /// The internal signal fired.
    Fired,
    /// The tick's wait ran out.
    Elapsed,
    /// The signal's source is gone.
    Disconnected,
}

/// What the watcher does after a tick's event was offered to the channel.
#[derive(Debug, Clone, Copy, PartialEq, Eq, Structural)]
pub enum Delivery {
    /// The channel took the event.
    Queued,
    /// The channel was full or closed: the event is dropped.
    Dropped,
}

/// The background producer of selection events.
#[derive(Debug, Clone, Copy, PartialEq, Eq, Structural)]
pub struct SelectionWatcher;

impl SelectionWatcher {
    /// Whether a wake-up is a tick. The watcher polls on every wake-up and
    /// ends only when the signal's source is gone.
    pub fn keeps_running(signal: Signal) -> (yes: bool)
        ensures
            yes == !(signal is Disconnected),
    {
        match signal {
            Signal::Disconnected => false,
            _ => true,
        }
    }

    /// Records how the offer of an event to the channel went. A dropped
    /// event is not offered again: the watcher goes on to its next tick
    /// either way.
    pub fn delivery(accepted: bool) -> (outcome: Delivery)
        ensures
            accepted ==> outcome == Delivery::Queued,
            !accepted ==> outcome == Delivery::Dropped,
    {
        if accepted {
            Delivery::Queued
        } else {
            Delivery::Dropped
        }
    }
}

} // verus!
