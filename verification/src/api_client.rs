//! The translation call: the provider request, the classification of HTTP
//! outcomes and the bounded retry policy, as a state machine that the caller
//! drives with what the network reported.

use vstd::prelude::*;
use vstd::string::*;
use vstd::arithmetic::power2::*;

verus! {

/// Attempts that one translation call may issue at most.
pub const MAX_ATTEMPTS: u32 = 3;

/// Delay before the second attempt, in milliseconds; it doubles with each retry.
pub const BASE_BACKOFF_MS: u64 = 200;

/// Time allowed to one attempt, in seconds.
pub const ATTEMPT_TIMEOUT_SECS: u64 = 20;

/// Sampling temperature of every request, in hundredths.
pub const TEMPERATURE_HUNDREDTHS: u32 = 20;

/// Nucleus sampling bound of every request, in hundredths.
pub const TOP_P_HUNDREDTHS: u32 = 95;

/// The chat-completion endpoint that requests are posted to.
pub open spec fn default_endpoint() -> Seq<char> {
    "https://api.siliconflow.cn/v1/chat/completions"@
}

/// The fixed system instruction: translate faithfully, keep terminology
/// consistent, do not expand, output the translation only.
pub open spec fn system_prompt() -> Seq<char> {
    "你是专业翻译。忠实准确，保持术语一致，不扩写不发挥。只输出译文。"@
}

/// The user message for a text and its two languages.
pub open spec fn user_prompt(source_lang: Seq<char>, target_lang: Seq<char>, text: Seq<char>) -> Seq<char> {
    "translate the following text from "@ + source_lang + " to "@ + target_lang + ": "@ + text
}

/// The view of an optional string.
pub open spec fn text_of(value: Option<String>) -> Option<Seq<char>> {
    match value {
        Some(s) => Some(s@),
        None => None,
    }
}

/// What the caller asks to have translated.
#[derive(Debug, PartialEq, Eq)]
pub struct TranslationRequest {
    pub text: String,
    pub source_lang: String,
    pub target_lang: String,
    pub model: String,
}

impl Clone for TranslationRequest {
    fn clone(&self) -> (copy: Self)
        ensures
            copy == *self,
    {
        TranslationRequest {
            text: self.text.clone(),
            source_lang: self.source_lang.clone(),
            target_lang: self.target_lang.clone(),
            model: self.model.clone(),
        }
    }
}

/// A finished translation.
#[derive(Debug, Clone, PartialEq, Eq)]
pub struct TranslationResponse {
    pub translated_text: String,
    pub detected_source_lang: Option<String>,
}

pub struct TranslationResponseView {
    pub translated_text: Seq<char>,
    pub detected_source_lang: Option<Seq<char>>,
}

impl View for TranslationResponse {
    type V = TranslationResponseView;

    open spec fn view(&self) -> TranslationResponseView {
        TranslationResponseView {
            translated_text: self.translated_text@,
            detected_source_lang: text_of(self.detected_source_lang),
        }
    }
}

/// Why a translation call ended without a translation.
#[derive(Debug, Clone, PartialEq, Eq)]
pub enum ApiError {
    /// No key was supplied; nothing was sent.
    MissingApiKey,
    /// The transport failed (connection, timeout, undecodable body); the
    /// field is the failure's textual summary.
    Http(String),
    Unauthorized,
    RateLimited,
    ModelUnavailable,
    Unexpected(String),
}

pub enum ApiErrorView {
    MissingApiKey,
    Http(Seq<char>),
    Unauthorized,
    RateLimited,
    ModelUnavailable,
    Unexpected(Seq<char>),
}

impl View for ApiError {
    type V = ApiErrorView;

    open spec fn view(&self) -> ApiErrorView {
        match self {
            ApiError::MissingApiKey => ApiErrorView::MissingApiKey,
            ApiError::Http(m) => ApiErrorView::Http(m@),
            ApiError::Unauthorized => ApiErrorView::Unauthorized,
            ApiError::RateLimited => ApiErrorView::RateLimited,
            ApiError::ModelUnavailable => ApiErrorView::ModelUnavailable,
            ApiError::Unexpected(m) => ApiErrorView::Unexpected(m@),
        }
    }
}

/// The text that an error is shown with.
pub open spec fn api_error_text(error: ApiErrorView) -> Seq<char> {
    match error {
        ApiErrorView::MissingApiKey => "missing api key"@,
        ApiErrorView::Http(m) => "http error: "@ + m,
        ApiErrorView::Unauthorized => "unauthorized"@,
        ApiErrorView::RateLimited => "rate limited"@,
        ApiErrorView::ModelUnavailable => "model unavailable"@,
        ApiErrorView::Unexpected(m) => "unexpected response: "@ + m,
    }
}

impl ApiError {
    /// The error as a display string.
    pub fn message(&self) -> (text: String)
        ensures
            text@ == api_error_text(self@),
    {
        match self {
            ApiError::MissingApiKey => String::from_str("missing api key"),
            ApiError::Http(m) => String::from_str("http error: ").concat(m.as_str()),
            ApiError::Unauthorized => String::from_str("unauthorized"),
            ApiError::RateLimited => String::from_str("rate limited"),
            ApiError::ModelUnavailable => String::from_str("model unavailable"),
            ApiError::Unexpected(m) => String::from_str("unexpected response: ").concat(m.as_str()),
        }
    }
}

/// One role/content pair of the provider's wire schema.
#[derive(Debug, Clone, PartialEq, Eq)]
pub struct ChatMessage {
    pub role: String,
    pub content: String,
}

/// The provider's request body. The two sampling parameters are held in
/// hundredths.
#[derive(Debug, Clone, PartialEq, Eq)]
pub struct ChatCompletionRequest {
    pub model: String,
    pub messages: Vec<ChatMessage>,
    pub temperature_hundredths: u32,
    pub top_p_hundredths: u32,
    pub stream: bool,
}

impl ChatCompletionRequest {
    /// True of the one provider request that belongs to a translation request
    /// with these four texts.
    pub open spec fn derived_from(
        &self,
        text: Seq<char>,
        source_lang: Seq<char>,
        target_lang: Seq<char>,
        model: Seq<char>,
    ) -> bool {
        &&& self.model@ == model
        &&& self.messages@.len() == 2
        &&& self.messages@[0].role@ == "system"@
        &&& self.messages@[0].content@ == system_prompt()
        &&& self.messages@[1].role@ == "user"@
        &&& self.messages@[1].content@ == user_prompt(source_lang, target_lang, text)
        &&& self.temperature_hundredths == TEMPERATURE_HUNDREDTHS
        &&& self.top_p_hundredths == TOP_P_HUNDREDTHS
        &&& !self.stream
    }

    /// Builds the provider request for a translation request: the system
    /// instruction, then the user message, fixed sampling, no streaming.
    pub fn from(request: TranslationRequest) -> (payload: ChatCompletionRequest)
        ensures
            payload.derived_from(
                request.text@,
                request.source_lang@,
                request.target_lang@,
                request.model@,
            ),
    {
        let mut user_prompt = String::from_str("translate the following text from ");
        user_prompt.append(request.source_lang.as_str());
        user_prompt.append(" to ");
        user_prompt.append(request.target_lang.as_str());
        user_prompt.append(": ");
        user_prompt.append(request.text.as_str());
        let mut messages: Vec<ChatMessage> = Vec::new();
        messages.push(
            ChatMessage {
                role: String::from_str("system"),
                content: String::from_str("你是专业翻译。忠实准确，保持术语一致，不扩写不发挥。只输出译文。"),
            },
        );
        messages.push(ChatMessage { role: String::from_str("user"), content: user_prompt });
        ChatCompletionRequest {
            model: request.model,
            messages,
            temperature_hundredths: TEMPERATURE_HUNDREDTHS,
            top_p_hundredths: TOP_P_HUNDREDTHS,
            stream: false,
        }
    }
}

/// The message of one completion choice.
#[derive(Debug, Clone, PartialEq, Eq)]
pub struct ChatMessageContent {
    pub content: Option<String>,
}

/// One completion choice.
#[derive(Debug, Clone, PartialEq, Eq)]
pub struct ChatChoice {
    pub message: ChatMessageContent,
}

/// The provider's response body, decoded.
#[derive(Debug, Clone, PartialEq, Eq)]
pub struct ChatCompletionResponse {
    pub choices: Vec<ChatChoice>,
}

impl View for ChatCompletionResponse {
    type V = Seq<Option<Seq<char>>>;

    /// The content of each choice, in order.
    open spec fn view(&self) -> Seq<Option<Seq<char>>> {
        Seq::new(self.choices@.len(), |i: int| text_of(self.choices@[i].message.content))
    }
}

/// The content of the first choice, if there is a choice and it has content.
pub open spec fn first_content(choices: Seq<Option<Seq<char>>>) -> Option<Seq<char>> {
    if choices.len() == 0 {
        None
    } else {
        choices[0]
    }
}

impl ChatCompletionResponse {
    /// The content of the first choice.
    pub fn first_content(&self) -> (content: Option<String>)
        ensures
            text_of(content) == first_content(self@),
    {
        if self.choices.len() == 0 {
            None
        } else {
            match &self.choices[0].message.content {
                Some(text) => Some(text.clone()),
                None => None,
            }
        }
    }
}

/// An HTTP status code, between 100 and 999.
#[derive(Debug, Clone, Copy, PartialEq, Eq, Structural)]
pub struct HttpStatus {
    code: u16,
}

impl HttpStatus {
    pub closed spec fn code(&self) -> u16 {
        self.code
    }

    /// The code has three digits. Every status that executable code holds
    /// is in range; a status that only a specification speaks of need not be.
    pub open spec fn well_formed(&self) -> bool {
        100 <= self.code() <= 999
    }

    #[verifier::type_invariant]
    spec fn in_range(self) -> bool {
        100 <= self.code <= 999
    }

    /// The status with this code, where the code is one.
    pub fn new(code: u16) -> (status: Option<HttpStatus>)
        ensures
            status is Some <==> 100 <= code <= 999,
            status is Some ==> status->0.code() == code && status->0.well_formed(),
    {
        if 100 <= code && code <= 999 {
            Some(HttpStatus { code })
        } else {
            None
        }
    }

    pub fn as_u16(&self) -> (code: u16)
        ensures
            code == self.code(),
    {
        self.code
    }

    /// A status from 500 to 599.
    pub open spec fn server_error(&self) -> bool {
        500 <= self.code() < 600
    }

    pub fn is_server_error(&self) -> (yes: bool)
        ensures
            yes == self.server_error(),
    {
        500 <= self.code && self.code < 600
    }
}

/// The text that `reqwest::StatusCode` displays for a code: the number and
/// the reason phrase that the `http` crate's table holds for it.
pub uninterp spec fn status_line(code: u16) -> Seq<char>;

/// Calls `reqwest::StatusCode::from_u16` and formats the status with its
/// `Display` impl. The contract names the text and claims nothing else of it;
/// `from_u16` accepts every code from 100 to 999.
#[verifier::external_body]
fn render_status(code: u16) -> (text: String)
    requires
        100 <= code <= 999,
    ensures
        text@ == status_line(code),
{
    match reqwest::StatusCode::from_u16(code) {
        Ok(status) => status.to_string(),
        Err(invalid) => invalid.to_string(),
    }
}

/// The delay before the attempt that follows attempt `attempt`:
/// 200 ms, doubled for each attempt before it.
pub open spec fn backoff_millis(attempt: nat) -> nat
    recommends
        attempt >= 1,
{
    200 * pow2((attempt - 1) as nat)
}

/// Computes `backoff_millis`.
pub fn backoff_delay(attempt: u32) -> (millis: u64)
    requires
        1 <= attempt <= 57,
    ensures
        millis == backoff_millis(attempt as nat),
{
    let mut millis: u64 = BASE_BACKOFF_MS;
    let mut done: u32 = 1;
    proof {
        lemma2_to64();
        lemma2_to64_rest();
    }
    while done < attempt
        invariant
            1 <= done <= attempt <= 57,
            millis == 200 * pow2((done - 1) as nat),
            pow2(56) == 0x100000000000000,
        decreases attempt - done,
    {
        proof {
            lemma_pow2_unfold(done as nat);
            if done < 56 {
                lemma_pow2_strictly_increases(done as nat, 56);
            }
        }
        millis = millis * 2;
        done = done + 1;
    }
    millis
}

/// The error for a status that ends the call with no better name: the status
/// as displayed, then the body.
pub open spec fn unexpected_status_text(status_text: Seq<char>, body: Seq<char>) -> Seq<char> {
    "status "@ + status_text + ", body "@ + body
}

/// Builds the `Unexpected` error from a displayed status and a body.
pub fn unexpected_status(status_text: &str, body: &str) -> (error: ApiError)
    ensures
        error@ == ApiErrorView::Unexpected(unexpected_status_text(status_text@, body@)),
{
    let mut detail = String::from_str("status ");
    detail.append(status_text);
    detail.append(", body ");
    detail.append(body);
    ApiError::Unexpected(detail)
}

/// What the network reported to the caller since the last action.
#[derive(Debug, Clone, PartialEq, Eq)]
pub enum Reply {
    /// Sending failed, the attempt timed out, or the body could not be
    /// decoded; the field is the failure's textual summary.
    Transport(String),
    /// The response's status arrived.
    Status(HttpStatus),
    /// The body, decoded as a completion response.
    Json(ChatCompletionResponse),
    /// The body as text.
    Text(String),
    /// The requested sleep is over.
    Awake,
}

pub enum ReplyView {
    Transport(Seq<char>),
    Status(HttpStatus),
    Json(Seq<Option<Seq<char>>>),
    Text(Seq<char>),
    Awake,
}

impl View for Reply {
    type V = ReplyView;

    open spec fn view(&self) -> ReplyView {
        match self {
            Reply::Transport(m) => ReplyView::Transport(m@),
            Reply::Status(s) => ReplyView::Status(*s),
            Reply::Json(body) => ReplyView::Json(body@),
            Reply::Text(t) => ReplyView::Text(t@),
            Reply::Awake => ReplyView::Awake,
        }
    }
}

/// What the caller does next.
#[derive(Debug, PartialEq, Eq)]
pub enum Action {
    /// Post the request; `attempt` counts from 1.
    Send { attempt: u32 },
    /// Decode the response body as a completion response.
    ReadJson,
    /// Read the response body as text; a body that cannot be read is empty.
    ReadText,
    /// Sleep, then report `Awake`.
    Sleep { millis: u64 },
    /// The call is over with this result.
    Done(Result<TranslationResponse, ApiError>),
}

pub enum ActionView {
    Send { attempt: u32 },
    ReadJson,
    ReadText,
    Sleep { millis: u64 },
    Done(Result<TranslationResponseView, ApiErrorView>),
}

impl View for Action {
    type V = ActionView;

    open spec fn view(&self) -> ActionView {
        match self {
            Action::Send { attempt } => ActionView::Send { attempt: *attempt },
            Action::ReadJson => ActionView::ReadJson,
            Action::ReadText => ActionView::ReadText,
            Action::Sleep { millis } => ActionView::Sleep { millis: *millis },
            Action::Done(Ok(response)) => ActionView::Done(Ok(response@)),
            Action::Done(Err(error)) => ActionView::Done(Err(error@)),
        }
    }
}

/// Where a translation call stands between two replies.
#[derive(Debug, Clone, Copy, PartialEq, Eq, Structural)]
pub enum Phase {
    /// The request is out; the status or a transport failure comes next.
    AwaitingStatus,
    /// Status 200 arrived; the decoded body comes next.
    AwaitingJson,
    /// A status that ends the call arrived; the body text comes next.
    AwaitingText { status: HttpStatus },
    /// Backing off before the next attempt.
    Sleeping,
    /// The result was handed out.
    Finished,
}

/// The retry state of one translation call.
#[derive(Debug, Clone, Copy, PartialEq, Eq, Structural)]
pub struct Translation {
    /// Attempts issued so far.
    pub attempt: u32,
    pub phase: Phase,
}

/// The result of a completed exchange with status 200.
pub open spec fn completion_result(choices: Seq<Option<Seq<char>>>) -> Result<
    TranslationResponseView,
    ApiErrorView,
> {
    match first_content(choices) {
        Some(text) => Ok(
            TranslationResponseView { translated_text: text, detected_source_lang: None },
        ),
        None => Err(ApiErrorView::Unexpected("empty response"@)),
    }
}

/// Turns a decoded completion response into the call's result.
pub fn finish_completion(body: &ChatCompletionResponse) -> (result: Result<
    TranslationResponse,
    ApiError,
>)
    ensures
        (Action::Done(result))@ == ActionView::Done(completion_result(body@)),
{
    match body.first_content() {
        Some(text) => Ok(TranslationResponse { translated_text: text, detected_source_lang: None }),
        None => Err(ApiError::Unexpected(String::from_str("empty response"))),
    }
}

impl Translation {
    /// The state right after the first request was handed out.
    pub open spec fn first() -> Translation {
        Translation { attempt: 1, phase: Phase::AwaitingStatus }
    }

    /// Between one and three attempts were issued, and a remembered status is
    /// in range.
    pub open spec fn well_formed(&self) -> bool {
        &&& 1 <= self.attempt <= MAX_ATTEMPTS
        &&& self.phase is Sleeping ==> self.attempt < MAX_ATTEMPTS
        &&& match self.phase {
            Phase::AwaitingText { status } => status.well_formed(),
            _ => true,
        }
    }

    pub open spec fn finished(&self) -> Translation {
        Translation { attempt: self.attempt, phase: Phase::Finished }
    }

    /// What a status leads to: 200 asks for the decoded body; 401, 429 and
    /// 503 end the call; another 5xx is retried after a backoff while
    /// attempts remain; everything else ends the call once the body is read.
    pub open spec fn on_status(&self, status: HttpStatus) -> (Translation, ActionView) {
        let code = status.code();
        if code == 200 {
            (Translation { attempt: self.attempt, phase: Phase::AwaitingJson }, ActionView::ReadJson)
        } else if code == 401 {
            (self.finished(), ActionView::Done(Err(ApiErrorView::Unauthorized)))
        } else if code == 429 {
            (self.finished(), ActionView::Done(Err(ApiErrorView::RateLimited)))
        } else if code == 503 {
            (self.finished(), ActionView::Done(Err(ApiErrorView::ModelUnavailable)))
        } else if status.server_error() && self.attempt < MAX_ATTEMPTS {
            (
                Translation { attempt: self.attempt, phase: Phase::Sleeping },
                ActionView::Sleep { millis: backoff_millis(self.attempt as nat) as u64 },
            )
        } else {
            (
                Translation { attempt: self.attempt, phase: Phase::AwaitingText { status } },
                ActionView::ReadText,
            )
        }
    }

    /// The transition function: the next state and the action for a reply,
    /// or `None` where the reply answers nothing that this state asked for
    /// or the state is not well formed. `status_text` is the displayed form
    /// of the status remembered in `AwaitingText`.
    pub open spec fn next(&self, reply: ReplyView, status_text: Seq<char>) -> Option<
        (Translation, ActionView),
    > {
        if self.well_formed() {
            self.answer(reply, status_text)
        } else {
            None
        }
    }

    /// `next` for a well-formed state.
    pub open spec fn answer(&self, reply: ReplyView, status_text: Seq<char>) -> Option<
        (Translation, ActionView),
    > {
        match (self.phase, reply) {
            (Phase::AwaitingStatus, ReplyView::Transport(m)) => Some(
                (self.finished(), ActionView::Done(Err(ApiErrorView::Http(m)))),
            ),
            (Phase::AwaitingStatus, ReplyView::Status(status)) => Some(self.on_status(status)),
            (Phase::AwaitingJson, ReplyView::Transport(m)) => Some(
                (self.finished(), ActionView::Done(Err(ApiErrorView::Http(m)))),
            ),
            (Phase::AwaitingJson, ReplyView::Json(choices)) => Some(
                (self.finished(), ActionView::Done(completion_result(choices))),
            ),
            (Phase::AwaitingText { status }, ReplyView::Text(body)) => Some(
                (
                    self.finished(),
                    ActionView::Done(
                        Err(ApiErrorView::Unexpected(unexpected_status_text(status_text, body))),
                    ),
                ),
            ),
            (Phase::AwaitingText { status }, ReplyView::Transport(m)) => Some(
                (
                    self.finished(),
                    ActionView::Done(
                        Err(
                            ApiErrorView::Unexpected(
                                unexpected_status_text(status_text, Seq::empty()),
                            ),
                        ),
                    ),
                ),
            ),
            (Phase::Sleeping, ReplyView::Awake) => Some(
                (
                    Translation { attempt: (self.attempt + 1) as u32, phase: Phase::AwaitingStatus },
                    ActionView::Send { attempt: (self.attempt + 1) as u32 },
                ),
            ),
            _ => None,
        }
    }

    /// The status whose displayed form `next` reads, where there is one.
    pub open spec fn pending_status_text(&self) -> Seq<char> {
        match self.phase {
            Phase::AwaitingText { status } => status_line(status.code()),
            _ => Seq::empty(),
        }
    }

    /// The step for a reply whose status text is already at hand: exactly
    /// `next`.
    pub fn step_with(self, reply: Reply, status_text: &str) -> (out: Option<(Translation, Action)>)
        ensures
            step_view(out) == self.next(reply@, status_text@),
            out matches Some(pair) ==> pair.0.well_formed(),
    {
        if !self.is_well_formed() {
            return None;
        }
        let done = Translation { attempt: self.attempt, phase: Phase::Finished };
        match self.phase {
            Phase::AwaitingStatus => match reply {
                Reply::Transport(m) => Some((done, Action::Done(Err(ApiError::Http(m))))),
                Reply::Status(status) => Some(self.react_to_status(status)),
                _ => None,
            },
            Phase::AwaitingJson => match reply {
                Reply::Transport(m) => Some((done, Action::Done(Err(ApiError::Http(m))))),
                Reply::Json(body) => Some((done, Action::Done(finish_completion(&body)))),
                _ => None,
            },
            Phase::AwaitingText { status } => match reply {
                Reply::Text(body) => Some(
                    (done, Action::Done(Err(unexpected_status(status_text, body.as_str())))),
                ),
                Reply::Transport(_) => {
                    let body = String::new();
                    Some((done, Action::Done(Err(unexpected_status(status_text, body.as_str())))))
                },
                _ => None,
            },
            Phase::Sleeping => match reply {
                Reply::Awake => {
                    let attempt: u32 = self.attempt + 1;
                    Some(
                        (
                            Translation { attempt, phase: Phase::AwaitingStatus },
                            Action::Send { attempt },
                        ),
                    )
                },
                _ => None,
            },
            Phase::Finished => None,
        }
    }

    /// Classifies a status: exactly `on_status`.
    fn react_to_status(self, status: HttpStatus) -> (out: (Translation, Action))
        requires
            self.well_formed(),
        ensures
            (out.0, out.1@) == self.on_status(status),
            out.0.well_formed(),
    {
        proof {
            use_type_invariant(&status);
        }
        let code = status.as_u16();
        let done = Translation { attempt: self.attempt, phase: Phase::Finished };
        if code == 200 {
            (Translation { attempt: self.attempt, phase: Phase::AwaitingJson }, Action::ReadJson)
        } else if code == 401 {
            (done, Action::Done(Err(ApiError::Unauthorized)))
        } else if code == 429 {
            (done, Action::Done(Err(ApiError::RateLimited)))
        } else if code == 503 {
            (done, Action::Done(Err(ApiError::ModelUnavailable)))
        } else if status.is_server_error() && self.attempt < MAX_ATTEMPTS {
            let millis = backoff_delay(self.attempt);
            (Translation { attempt: self.attempt, phase: Phase::Sleeping }, Action::Sleep { millis })
        } else {
            (
                Translation { attempt: self.attempt, phase: Phase::AwaitingText { status } },
                Action::ReadText,
            )
        }
    }

    /// Advances the call by one reply: `next`, with the remembered status
    /// displayed as `reqwest::StatusCode` displays it.
    pub fn step(self, reply: Reply) -> (out: Option<(Translation, Action)>)
        ensures
            step_view(out) == self.next(reply@, self.pending_status_text()),
            out matches Some(pair) ==> pair.0.well_formed(),
    {
        match self.phase {
            Phase::AwaitingText { status } => {
                proof {
                    use_type_invariant(&status);
                }
                let text = render_status(status.as_u16());
                self.step_with(reply, text.as_str())
            },
            _ => self.step_with(reply, ""),
        }
    }

    /// Tests `well_formed`.
    pub fn is_well_formed(&self) -> (ok: bool)
        ensures
            ok == self.well_formed(),
    {
        let in_range = 1 <= self.attempt && self.attempt <= MAX_ATTEMPTS;
        match self.phase {
            Phase::Sleeping => in_range && self.attempt < MAX_ATTEMPTS,
            Phase::AwaitingText { status } => in_range && 100 <= status.as_u16()
                && status.as_u16() <= 999,
            _ => in_range,
        }
    }

    /// True once the result was handed out.
    pub fn is_finished(&self) -> (yes: bool)
        ensures
            yes == (self.phase is Finished),
    {
        match self.phase {
            Phase::Finished => true,
            _ => false,
        }
    }
}

/// The view of a step's outcome.
pub open spec fn step_view(out: Option<(Translation, Action)>) -> Option<(Translation, ActionView)> {
    match out {
        Some((state, action)) => Some((state, action@)),
        None => None,
    }
}

/// One request as it goes on the wire.
#[derive(Debug, Clone, PartialEq, Eq)]
pub struct HttpCall {
    pub endpoint: String,
    /// The key of the `Authorization: Bearer` header.
    pub bearer: String,
    pub payload: ChatCompletionRequest,
    pub timeout_secs: u64,
}

/// The gateway to the provider; it holds the endpoint and no other state.
#[derive(Debug, Clone, PartialEq, Eq)]
pub struct ApiClient {
    pub endpoint: String,
}

impl ApiClient {
    pub fn new() -> (client: ApiClient)
        ensures
            client.endpoint@ == default_endpoint(),
    {
        ApiClient { endpoint: String::from_str("https://api.siliconflow.cn/v1/chat/completions") }
    }

    /// True of the outcome of opening a call: without a key the error
    /// `MissingApiKey` and nothing to send; with a key the request of the
    /// first attempt, built from `request`, and the state after it.
    pub open spec fn opens(
        &self,
        request: TranslationRequest,
        api_key: Option<String>,
        out: Result<(HttpCall, Translation), ApiError>,
    ) -> bool {
        match api_key {
            None => out == Err::<(HttpCall, Translation), ApiError>(ApiError::MissingApiKey),
            Some(key) => {
                &&& out is Ok
                &&& out->Ok_0.1 == Translation::first()
                &&& out->Ok_0.0.endpoint == self.endpoint
                &&& out->Ok_0.0.bearer == key
                &&& out->Ok_0.0.timeout_secs == ATTEMPT_TIMEOUT_SECS
                &&& out->Ok_0.0.payload.derived_from(
                    request.text@,
                    request.source_lang@,
                    request.target_lang@,
                    request.model@,
                )
            },
        }
    }

    /// Opens a translation call. Without a key it fails with `MissingApiKey`
    /// and hands out nothing to send. With a key it hands out the request for
    /// the first attempt and the state that `Translation::step` continues from.
    pub fn translate(&self, request: TranslationRequest, api_key: Option<String>) -> (out: Result<
        (HttpCall, Translation),
        ApiError,
    >)
        ensures
            self.opens(request, api_key, out),
    {
        match api_key {
            None => Err(ApiError::MissingApiKey),
            Some(bearer) => {
                let payload = ChatCompletionRequest::from(request);
                Ok(
                    (
                        HttpCall {
                            endpoint: self.endpoint.clone(),
                            bearer,
                            payload,
                            timeout_secs: ATTEMPT_TIMEOUT_SECS,
                        },
                        Translation { attempt: 1, phase: Phase::AwaitingStatus },
                    ),
                )
            },
        }
    }
}

} // verus!
