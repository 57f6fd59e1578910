//! What the retry policy guarantees, stated over the transition function of
//! a translation call.

use vstd::prelude::*;
use vstd::arithmetic::power2::*;
use crate::api_client::{
    ActionView, ApiErrorView, HttpStatus, Phase, ReplyView, Translation, TranslationResponseView,
    MAX_ATTEMPTS, backoff_millis, status_line, unexpected_status_text,
};

verus! {

/// A status that is retried while attempts remain: 5xx, but not 503.
pub open spec fn retryable(status: HttpStatus) -> bool {
    status.server_error() && status.code() != 503
}

/// The state in which attempt `attempt` is out and its status is awaited.
pub open spec fn awaiting(attempt: u32) -> Translation {
    Translation { attempt, phase: Phase::AwaitingStatus }
}

/// The state in which the call backs off after attempt `attempt`.
pub open spec fn sleeping(attempt: u32) -> Translation {
    Translation { attempt, phase: Phase::Sleeping }
}

/// The first two delays are 200 ms and 400 ms, 600 ms together.
pub proof fn lemma_backoff_values()
    ensures
        backoff_millis(1) == 200,
        backoff_millis(2) == 400,
        backoff_millis(3) == 800,
        backoff_millis(1) + backoff_millis(2) == 600,
{
    lemma2_to64();
}

/// A retryable status on the first or second attempt leads to a sleep of
/// the backoff delay, and the wake-up to the next attempt: no result is
/// handed out in between.
pub proof fn lemma_server_error_is_retried(attempt: u32, status: HttpStatus, text: Seq<char>)
    requires
        1 <= attempt < MAX_ATTEMPTS,
        retryable(status),
    ensures
        awaiting(attempt).next(ReplyView::Status(status), text) == Some(
            (sleeping(attempt), ActionView::Sleep { millis: backoff_millis(attempt as nat) as u64 }),
        ),
        sleeping(attempt).next(ReplyView::Awake, text) == Some(
            (awaiting((attempt + 1) as u32), ActionView::Send { attempt: (attempt + 1) as u32 }),
        ),
{
}

/// A transient failure that heals: after a retryable status on the first and
/// on the second attempt, status 200 on the third with content in its first
/// choice ends the call with that content. The third attempt is the last
/// one issued, and the delays before it were 200 ms and 400 ms.
pub proof fn lemma_two_failures_then_success(
    first: HttpStatus,
    second: HttpStatus,
    ok: HttpStatus,
    choices: Seq<Option<Seq<char>>>,
    text: Seq<char>,
)
    requires
        retryable(first),
        retryable(second),
        ok.code() == 200,
        choices.len() > 0,
        choices[0] is Some,
    ensures
        ({
            let s1 = Translation::first().next(ReplyView::Status(first), text).unwrap();
            let s2 = s1.0.next(ReplyView::Awake, text).unwrap();
            let s3 = s2.0.next(ReplyView::Status(second), text).unwrap();
            let s4 = s3.0.next(ReplyView::Awake, text).unwrap();
            let s5 = s4.0.next(ReplyView::Status(ok), text).unwrap();
            let s6 = s5.0.next(ReplyView::Json(choices), text).unwrap();
            &&& s1.1 == ActionView::Sleep { millis: 200 }
            &&& s2.1 == ActionView::Send { attempt: 2 }
            &&& s3.1 == ActionView::Sleep { millis: 400 }
            &&& s4.1 == ActionView::Send { attempt: 3 }
            &&& s5.1 == ActionView::ReadJson
            &&& s6.1 == ActionView::Done(
                Ok(
                    TranslationResponseView {
                        translated_text: choices[0]->0,
                        detected_source_lang: None,
                    },
                ),
            )
            &&& s6.0.attempt == 3
            &&& s6.0.phase is Finished
        }),
{
    lemma_backoff_values();
    lemma_server_error_is_retried(1, first, text);
    lemma_server_error_is_retried(2, second, text);
}

/// Status 429 is never retried: on whichever attempt it arrives, the call
/// ends at once with `RateLimited`, and no further attempt is issued. On the
/// first attempt that makes one request in all.
pub proof fn lemma_rate_limit_ends_call(state: Translation, status: HttpStatus, text: Seq<char>)
    requires
        state.well_formed(),
        state.phase is AwaitingStatus,
        status.code() == 429,
    ensures
        state.next(ReplyView::Status(status), text) == Some(
            (state.finished(), ActionView::Done(Err(ApiErrorView::RateLimited))),
        ),
        forall|reply: ReplyView| state.finished().next(reply, text) is None,
{
}

/// The cap on attempts: a retryable status on the third attempt is not
/// retried. The call asks for the body and ends with `Unexpected`, which
/// holds the displayed status and the body; three attempts were issued.
pub proof fn lemma_third_failure_ends_call(status: HttpStatus, body: Seq<char>)
    requires
        retryable(status),
    ensures
        ({
            let s1 = awaiting(3).next(ReplyView::Status(status), Seq::empty()).unwrap();
            let s2 = s1.0.next(ReplyView::Text(body), s1.0.pending_status_text()).unwrap();
            &&& s1.1 == ActionView::ReadText
            &&& s1.0.attempt == 3
            &&& s2.1 == ActionView::Done(
                Err(
                    ApiErrorView::Unexpected(
                        unexpected_status_text(status_line(status.code()), body),
                    ),
                ),
            )
            &&& s2.0.attempt == 3
            &&& s2.0.phase is Finished
        }),
{
}

/// No reply moves a finished call: once a result was handed out, nothing
/// more is sent.
pub proof fn lemma_finished_is_final(state: Translation, reply: ReplyView, text: Seq<char>)
    requires
        state.phase is Finished,
    ensures
        state.next(reply, text) is None,
{
}

/// Every step keeps the number of issued attempts between one and three,
/// and only a wake-up from a backoff raises it, by one.
pub proof fn lemma_attempts_are_bounded(state: Translation, reply: ReplyView, text: Seq<char>)
    requires
        state.well_formed(),
        state.next(reply, text) is Some,
    ensures
        1 <= state.next(reply, text).unwrap().0.attempt <= MAX_ATTEMPTS,
        state.next(reply, text).unwrap().0.attempt == if state.phase is Sleeping {
            state.attempt + 1
        } else {
            state.attempt as int
        },
{
}

/// The requests that a run of replies makes the call send, beyond those
/// already out: each reply is answered by `next`, and the run ends at the
/// first reply that the state did not ask for.
pub open spec fn sends(state: Translation, replies: Seq<ReplyView>) -> nat
    decreases replies.len(),
{
    if replies.len() == 0 {
        0
    } else {
        match state.next(replies[0], state.pending_status_text()) {
            Some((after, action)) => (if action is Send {
                1nat
            } else {
                0nat
            }) + sends(after, replies.drop_first()),
            None => 0,
        }
    }
}

/// The cap holds of every run: whatever the network reports, and in
/// whatever order, a call never has more than three requests sent. The
/// request that opened the call is the first of them.
pub proof fn lemma_at_most_three_requests(state: Translation, replies: Seq<ReplyView>)
    requires
        state.well_formed(),
    ensures
        state.attempt + sends(state, replies) <= MAX_ATTEMPTS,
    decreases replies.len(),
{
    if replies.len() > 0 {
        match state.next(replies[0], state.pending_status_text()) {
            Some((after, action)) => {
                let rest = replies.drop_first();
                if after.well_formed() {
                    lemma_at_most_three_requests(after, rest);
                } else {
                    assert(sends(after, rest) == 0);
                }
            },
            None => {},
        }
    }
}

} // verus!
