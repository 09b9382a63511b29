//! Cleanup of transcripts: the hosted worker and the local Ollama server.

use vstd::prelude::*;
use crate::http::{is_status, is_success, is_success_code, status_line, status_text};
use crate::json;
use crate::json::{Member, Scalar};
use crate::text::{decimal, join2, number, same, trim, trim_trailing, trimmed, without_trailing};

verus! {

pub const CLEANUP_WORKER_URL: &'static str = "https://neuma-cleanup.emarjay921.workers.dev";

pub const OLLAMA_SYSTEM_PROMPT: &'static str = "\
You are a voice dictation cleanup engine. Transform raw speech transcription into clean, \
natural written text.\n\n\
Rules:\n\
- Remove filler words (um, uh, like, you know, basically, literally)\n\
- Fix punctuation and capitalization naturally\n\
- Convert spoken list cues (\"one... two...\" or \"first... second...\") into a \
newline-separated list using \"- \" bullets\n\
- Convert \"new line\" or \"new paragraph\" into actual line breaks\n\
- Convert spoken punctuation (\"exclamation point\", \"question mark\", \"comma\", \
\"period\") into the actual symbol\n\
- Do not add, infer, or expand on anything not spoken\n\
- Output only the cleaned text, nothing else";

/// What introduces the text before the cursor in a prompt.
pub const CONTEXT_RULE: &'static str = "\n- If any names or terms in the following document context match \
phonetically with words in the transcript, use their exact spelling:\n\
Document context (text before cursor):\n";

/// How long a request may take, in milliseconds.
pub const CLOUD_TIMEOUT_MS: u64 = 15_000;

pub const LOCAL_TIMEOUT_MS: u64 = 30_000;

pub const PROBE_TIMEOUT_MS: u64 = 500;

pub const CHECK_TIMEOUT_MS: u64 = 3_000;

pub const PING_TIMEOUT_MS: u64 = 10_000;

// ── Errors ───────────────────────────────────────────────────────────────────

/// Why a cleanup failed.
pub enum CleanupError {
    OllamaNotFound,
    OllamaUnreachable,
    OllamaStatus(u16),
    OllamaJson,
    OllamaField,
    WorkerUnreachable,
    WorkerStatus { status: u16, body: String },
    WorkerJson,
    PingUnreachable,
    InvalidKey,
    PingStatus(u16),
}

impl CleanupError {
    /// The statuses are those of HTTP responses.
    pub open spec fn wf(self) -> bool {
        match self {
            CleanupError::OllamaStatus(status) => is_status(status),
            CleanupError::WorkerStatus { status, .. } => is_status(status),
            _ => true,
        }
    }

    /// What the user is told.
    pub open spec fn text(self) -> Seq<char> {
        match self {
            CleanupError::OllamaNotFound => "Ollama not found on ports [11434, 11435, 11436]"@,
            CleanupError::OllamaUnreachable => "failed to reach Ollama — is it running? (`brew install ollama && ollama serve`)"@,
            CleanupError::OllamaStatus(status) => "Ollama returned HTTP "@ + status_text(status),
            CleanupError::OllamaJson => "invalid JSON from Ollama"@,
            CleanupError::OllamaField => "no 'response' field in Ollama output"@,
            CleanupError::WorkerUnreachable => "failed to POST to cleanup worker at "@
                + CLEANUP_WORKER_URL@ + "/cleanup"@,
            CleanupError::WorkerStatus { status, body } => "cleanup worker returned "@
                + status_text(status) + ": "@ + body@,
            CleanupError::WorkerJson => "failed to parse cleanup worker response"@,
            CleanupError::PingUnreachable => "failed to reach cleanup worker"@,
            CleanupError::InvalidKey => "invalid API key"@,
            CleanupError::PingStatus(status) => "worker returned "@ + decimal(status as nat),
        }
    }

    /// What the user is told.
    pub fn message(&self) -> (r: String)
        requires
            self.wf(),
        ensures
            r@ == self.text(),
    {
        match self {
            CleanupError::OllamaNotFound => "Ollama not found on ports [11434, 11435, 11436]".to_owned(),
            CleanupError::OllamaUnreachable => "failed to reach Ollama — is it running? (`brew install ollama && ollama serve`)".to_owned(),
            CleanupError::OllamaStatus(status) => join2(
                "Ollama returned HTTP ",
                status_line(*status).as_str(),
            ),
            CleanupError::OllamaJson => "invalid JSON from Ollama".to_owned(),
            CleanupError::OllamaField => "no 'response' field in Ollama output".to_owned(),
            CleanupError::WorkerUnreachable => join2(
                "failed to POST to cleanup worker at ",
                CLEANUP_WORKER_URL,
            ).concat("/cleanup"),
            CleanupError::WorkerStatus { status, body } => join2(
                "cleanup worker returned ",
                status_line(*status).as_str(),
            ).concat(": ").concat(body.as_str()),
            CleanupError::WorkerJson => "failed to parse cleanup worker response".to_owned(),
            CleanupError::PingUnreachable => "failed to reach cleanup worker".to_owned(),
            CleanupError::InvalidKey => "invalid API key".to_owned(),
            CleanupError::PingStatus(status) => join2(
                "worker returned ",
                number(*status as u64).as_str(),
            ),
        }
    }
}

// ── Client ───────────────────────────────────────────────────────────────────

/// Where a transcript is cleaned.
pub enum CleanupMode {
    Cloud,
    /// An empty address is found out when it is needed.
    Local { ollama_url: String, ollama_model: String },
}

/// A cleanup backend: the hosted worker or a local Ollama server.
pub struct CleanupClient {
    mode: CleanupMode,
}

/// Where a transcript is cleaned.
pub enum ModeView {
    Cloud,
    Local { ollama_url: Seq<char>, ollama_model: Seq<char> },
}

impl View for CleanupClient {
    type V = ModeView;

    closed spec fn view(&self) -> ModeView {
        match self.mode {
            CleanupMode::Cloud => ModeView::Cloud,
            CleanupMode::Local { ollama_url, ollama_model } => ModeView::Local {
                ollama_url: ollama_url@,
                ollama_model: ollama_model@,
            },
        }
    }
}

/// The address that a setting gives: none for a setting that is blank or says
/// "auto", else the setting without blanks around it and slashes at its end.
pub open spec fn ollama_address(setting: Seq<char>) -> Seq<char> {
    let t = trimmed(setting);
    if t.len() == 0 || t == "auto"@ {
        Seq::empty()
    } else {
        without_trailing(t, '/')
    }
}

impl CleanupClient {
    /// The hosted worker.
    pub fn cloud() -> (r: CleanupClient)
        ensures
            r@ == ModeView::Cloud,
    {
        CleanupClient { mode: CleanupMode::Cloud }
    }

    /// An Ollama server.
    pub fn local(ollama_url: &str, ollama_model: &str) -> (r: CleanupClient)
        ensures
            r@ == (ModeView::Local {
                ollama_url: ollama_address(ollama_url@),
                ollama_model: ollama_model@,
            }),
    {
        let t = trim(ollama_url);
        let resolved_url = if t.is_empty() || same(t, "auto") {
            String::new()
        } else {
            trim_trailing(t, '/').to_owned()
        };
        CleanupClient {
            mode: CleanupMode::Local {
                ollama_url: resolved_url,
                ollama_model: ollama_model.to_owned(),
            },
        }
    }

    /// The backend that the settings ask for; none when cleanup is disabled.
    pub fn from_settings(mode: &str, ollama_url: &str, ollama_model: &str) -> (r: Option<
        CleanupClient,
    >)
        ensures
            r is Some <==> mode@ == "cloud"@ || mode@ == "local"@,
            r matches Some(client) ==> client@ == client_for(mode@, ollama_url@, ollama_model@),
    {
        if same(mode, "cloud") {
            Some(Self::cloud())
        } else if same(mode, "local") {
            Some(Self::local(ollama_url, ollama_model))
        } else {
            None
        }
    }

    /// How long a request to the backend may take.
    pub fn timeout_ms(&self) -> (r: u64)
        ensures
            r == if self@ is Cloud {
                CLOUD_TIMEOUT_MS
            } else {
                LOCAL_TIMEOUT_MS
            },
    {
        match self.mode {
            CleanupMode::Cloud => CLOUD_TIMEOUT_MS,
            CleanupMode::Local { .. } => LOCAL_TIMEOUT_MS,
        }
    }

    /// Whether the backend is the hosted worker.
    pub fn is_cloud(&self) -> (r: bool)
        ensures
            r == (self@ is Cloud),
    {
        match self.mode {
            CleanupMode::Cloud => true,
            CleanupMode::Local { .. } => false,
        }
    }

    /// Whether the server's address has to be found out.
    pub fn needs_detection(&self) -> (r: bool)
        ensures
            r == (self@ matches ModeView::Local { ollama_url, .. } && ollama_url.len() == 0),
    {
        match &self.mode {
            CleanupMode::Cloud => false,
            CleanupMode::Local { ollama_url, .. } => ollama_url.as_str().is_empty(),
        }
    }
}

/// The backend that a cleanup mode asks for.
pub open spec fn client_for(
    mode: Seq<char>,
    ollama_url: Seq<char>,
    ollama_model: Seq<char>,
) -> ModeView {
    if mode == "cloud"@ {
        ModeView::Cloud
    } else {
        ModeView::Local { ollama_url: ollama_address(ollama_url), ollama_model }
    }
}

impl Clone for CleanupClient {
    fn clone(&self) -> (r: Self)
        ensures
            r@ == self@,
    {
        match &self.mode {
            CleanupMode::Cloud => CleanupClient { mode: CleanupMode::Cloud },
            CleanupMode::Local { ollama_url, ollama_model } => CleanupClient {
                mode: CleanupMode::Local {
                    ollama_url: ollama_url.clone(),
                    ollama_model: ollama_model.clone(),
                },
            },
        }
    }
}

impl Default for CleanupClient {
    fn default() -> (r: Self)
        ensures
            r@ == ModeView::Cloud,
    {
        Self::cloud()
    }
}

// ── Detection ────────────────────────────────────────────────────────────────

/// How many ports are probed for a server.
pub const OLLAMA_PROBES: usize = 3;

/// The ports that are probed, in order.
pub open spec fn probe_port(k: int) -> nat {
    (11434 + k) as nat
}

/// The address of a server on the `k`-th port that is probed.
pub open spec fn probe_address(k: int) -> Seq<char> {
    "http://localhost:"@ + decimal(probe_port(k))
}

/// The address at which a server at `base` lists its models.
pub open spec fn tags_address(base: Seq<char>) -> Seq<char> {
    base + "/api/tags"@
}

/// A response came, and it reports success.
pub open spec fn reached(reply: Option<u16>) -> bool {
    reply matches Some(status) && is_success_code(status)
}

/// The status of the response, where one came, is that of an HTTP response.
pub open spec fn is_reply(reply: Option<u16>) -> bool {
    reply matches Some(status) ==> is_status(status)
}

/// A search for a server on this machine.
pub struct Detection {
    tried: usize,
}

/// What a search does next.
pub enum Search {
    /// Probe the next port.
    Next,
    /// There is a server at this address.
    Found(String),
    /// No port is left.
    NotFound,
}

/// What a search does next.
pub enum SearchView {
    Next,
    Found(Seq<char>),
    NotFound,
}

impl View for Search {
    type V = SearchView;

    open spec fn view(&self) -> SearchView {
        match self {
            Search::Next => SearchView::Next,
            Search::Found(address) => SearchView::Found(address@),
            Search::NotFound => SearchView::NotFound,
        }
    }
}

/// The answer to a probe after `tried` probes in vain: how many were in vain then,
/// and what is done next.
pub open spec fn search_next(tried: int, reply: Option<u16>) -> (int, SearchView) {
    if reached(reply) {
        (tried, SearchView::Found(probe_address(tried)))
    } else if tried + 1 < OLLAMA_PROBES {
        (tried + 1, SearchView::Next)
    } else {
        (tried + 1, SearchView::NotFound)
    }
}

impl View for Detection {
    type V = int;

    /// How many ports have been probed in vain.
    closed spec fn view(&self) -> int {
        self.tried as int
    }
}

impl Detection {
    /// Begins a search.
    pub fn new() -> (r: Detection)
        ensures
            r@ == 0,
    {
        Detection { tried: 0 }
    }

    /// The address of the server that is probed next.
    pub fn address(&self) -> (r: String)
        requires
            0 <= self@ < OLLAMA_PROBES,
        ensures
            r@ == probe_address(self@),
    {
        join2("http://localhost:", number(11434 + self.tried as u64).as_str())
    }

    /// The address that is asked for to probe the server.
    pub fn probe(&self) -> (r: String)
        requires
            0 <= self@ < OLLAMA_PROBES,
        ensures
            r@ == tags_address(probe_address(self@)),
    {
        self.address().concat("/api/tags")
    }

    /// Takes in the status of the response to the probe, or that there was none.
    pub fn report(&mut self, reply: Option<u16>) -> (r: Search)
        requires
            0 <= old(self)@ < OLLAMA_PROBES,
            is_reply(reply),
        ensures
            (final(self)@, r@) == search_next(old(self)@, reply),
    {
        let reachable = match reply {
            Some(status) => is_success(status),
            None => false,
        };
        if reachable {
            return Search::Found(self.address());
        }
        self.tried = self.tried + 1;
        if self.tried < OLLAMA_PROBES {
            Search::Next
        } else {
            Search::NotFound
        }
    }
}

/// The address that a search finds that has probed `k` ports in vain and meets these
/// replies, one for each port.
pub open spec fn search_from(k: int, replies: Seq<Option<u16>>) -> Option<Seq<char>>
    decreases OLLAMA_PROBES - k,
{
    if k >= OLLAMA_PROBES {
        None
    } else {
        match search_next(k, replies[k]).1 {
            SearchView::Next => search_from(k + 1, replies),
            SearchView::Found(address) => Some(address),
            SearchView::NotFound => None,
        }
    }
}

/// A search finds the first port that answers with success, and finds none only where
/// none does.
pub proof fn law_first_reachable_port_is_taken(replies: Seq<Option<u16>>)
    requires
        replies.len() == OLLAMA_PROBES,
    ensures
        forall|k: int|
            0 <= k < OLLAMA_PROBES && reached(replies[k]) && (forall|i: int|
                0 <= i < k ==> !reached(#[trigger] replies[i])) ==> search_from(0, replies) == Some(
                #[trigger] probe_address(k),
            ),
        search_from(0, replies) is None <==> forall|i: int|
            0 <= i < OLLAMA_PROBES ==> !reached(#[trigger] replies[i]),
{
    reveal_with_fuel(search_from, 4);
}

// ── Availability ─────────────────────────────────────────────────────────────

/// How a backend is checked.
pub enum Check {
    /// Any response to a `HEAD` request to this address will do.
    Head(String),
    /// A `GET` request to this address has to succeed.
    Tags(String),
    /// There is no server to ask.
    Unavailable,
}

impl CleanupClient {
    /// How the backend is checked. `detected` is the address that a search found,
    /// where the address had to be found out.
    pub fn check(&self, detected: Option<String>) -> (r: Check)
        ensures
            match self@ {
                ModeView::Cloud => r matches Check::Head(url) && url@ == CLEANUP_WORKER_URL@,
                ModeView::Local { ollama_url, .. } => if ollama_url.len() > 0 {
                    r matches Check::Tags(url) && url@ == tags_address(ollama_url)
                } else {
                    match detected {
                        Some(base) => r matches Check::Tags(url) && url@ == tags_address(base@),
                        None => r is Unavailable,
                    }
                },
            },
    {
        match &self.mode {
            CleanupMode::Cloud => Check::Head(CLEANUP_WORKER_URL.to_owned()),
            CleanupMode::Local { ollama_url, .. } => {
                let base = if ollama_url.as_str().is_empty() {
                    match detected {
                        Some(u) => u,
                        None => {
                            return Check::Unavailable;
                        },
                    }
                } else {
                    ollama_url.clone()
                };
                Check::Tags(base.concat("/api/tags"))
            },
        }
    }

    /// Whether the backend is reachable, given the status of the response to the
    /// check, or that there was none.
    pub fn is_available(&self, reply: Option<u16>) -> (r: bool)
        requires
            is_reply(reply),
        ensures
            r == match self@ {
                ModeView::Cloud => reply is Some,
                ModeView::Local { .. } => reached(reply),
            },
    {
        match reply {
            None => false,
            Some(status) => match self.mode {
                CleanupMode::Cloud => true,
                CleanupMode::Local { .. } => is_success(status),
            },
        }
    }
}

// ── Hosted worker ────────────────────────────────────────────────────────────

/// A `POST` request to a backend.
pub struct Call {
    pub url: String,
    /// The JSON document that is posted.
    pub body: Vec<u8>,
}

/// The header that carries the API key.
pub const API_KEY_HEADER: &'static str = "X-API-Key";

/// The address that an API key is tried at.
pub fn ping_url() -> (r: String)
    ensures
        r@ == CLEANUP_WORKER_URL@ + "/ping"@,
{
    join2(CLEANUP_WORKER_URL, "/ping")
}

impl CleanupClient {
    /// What an answer to a ping of the worker says about the API key.
    pub fn test_connection(&self, reply: Option<u16>) -> (r: Result<(), CleanupError>)
        requires
            is_reply(reply),
        ensures
            r == match reply {
                None => Err::<(), CleanupError>(CleanupError::PingUnreachable),
                Some(status) => if status == 401 || status == 403 {
                    Err(CleanupError::InvalidKey)
                } else if is_success_code(status) {
                    Ok(())
                } else {
                    Err(CleanupError::PingStatus(status))
                },
            },
            r matches Err(e) ==> e.wf(),
    {
        match reply {
            None => Err(CleanupError::PingUnreachable),
            Some(status) => if status == 401 || status == 403 {
                Err(CleanupError::InvalidKey)
            } else if 200 <= status && status < 300 {
                Ok(())
            } else {
                Err(CleanupError::PingStatus(status))
            },
        }
    }
}

/// What the document posted to the worker holds: the transcript and, where there is
/// one, the text before the cursor.
pub open spec fn cloud_members(text: Seq<char>, context: Option<Seq<char>>) -> Map<
    Seq<char>,
    Member,
> {
    let m = Map::<Seq<char>, Member>::empty().insert("text"@, Member::Text(text));
    match context {
        Some(c) => m.insert("context"@, Member::Text(c)),
        None => m,
    }
}

/// The request that asks the worker to clean `text`.
pub fn cloud_call(text: &str, context: Option<&str>) -> (r: Call)
    ensures
        r.url@ == CLEANUP_WORKER_URL@ + "/cleanup"@,
        json::parsed(r.body@) == Some(cloud_members(text@, opt_text(context))),
{
    let mut object = json::new_object();
    json::put(&mut object, "text", Scalar::Text(text.to_owned()));
    if let Some(c) = context {
        json::put(&mut object, "context", Scalar::Text(c.to_owned()));
    }
    Call { url: join2(CLEANUP_WORKER_URL, "/cleanup"), body: json::encode(&object).unwrap() }
}

/// Tells whether a response of the worker carries a cleaned transcript, as opposed
/// to an explanation.
pub fn worker_accepted(status: u16) -> (r: bool)
    requires
        is_status(status),
    ensures
        r == is_success_code(status),
{
    is_success(status)
}

/// The outcome of a cleanup by the worker: the status of the response, or that there
/// was none; the body of a response that does not report success; and the cleaned
/// text that a body of success holds, or nothing where it cannot be read.
pub fn cloud_reply(status: Option<u16>, rejection: String, result: Option<String>) -> (r: Result<
    String,
    CleanupError,
>)
    requires
        is_reply(status),
    ensures
        r == match status {
            None => Err::<String, CleanupError>(CleanupError::WorkerUnreachable),
            Some(code) => if !is_success_code(code) {
                Err(CleanupError::WorkerStatus { status: code, body: rejection })
            } else {
                match result {
                    Some(text) => Ok(text),
                    None => Err(CleanupError::WorkerJson),
                }
            },
        },
        r matches Err(e) ==> e.wf(),
{
    match status {
        None => Err(CleanupError::WorkerUnreachable),
        Some(code) => {
            if !is_success(code) {
                return Err(CleanupError::WorkerStatus { status: code, body: rejection });
            }
            match result {
                Some(text) => Ok(text),
                None => Err(CleanupError::WorkerJson),
            }
        },
    }
}

// ── Ollama ───────────────────────────────────────────────────────────────────

/// The part of a prompt that gives the text before the cursor: nothing where there
/// is none but blanks.
pub open spec fn context_text(context: Option<Seq<char>>) -> Seq<char> {
    match context {
        Some(c) => if trimmed(c).len() > 0 {
            CONTEXT_RULE@ + trimmed(c) + "\n"@
        } else {
            Seq::empty()
        },
        None => Seq::empty(),
    }
}

/// The text of an optional string.
pub open spec fn opt_text(s: Option<&str>) -> Option<Seq<char>> {
    match s {
        Some(t) => Some(t@),
        None => None,
    }
}

/// The part of a prompt that gives the text before the cursor.
pub fn context_section(context: Option<&str>) -> (r: String)
    ensures
        r@ == context_text(opt_text(context)),
{
    match context {
        Some(c) => {
            let t = trim(c);
            if t.is_empty() {
                String::new()
            } else {
                join2(CONTEXT_RULE, t).concat("\n")
            }
        },
        None => String::new(),
    }
}

/// The prompt that asks an Ollama server to clean `text`.
pub open spec fn ollama_prompt_text(text: Seq<char>, context: Option<Seq<char>>) -> Seq<char> {
    OLLAMA_SYSTEM_PROMPT@ + context_text(context) + "\n\nTranscript: "@ + text
}

/// The prompt that asks an Ollama server to clean `text`.
pub fn ollama_prompt(text: &str, context: Option<&str>) -> (r: String)
    ensures
        r@ == ollama_prompt_text(text@, opt_text(context)),
{
    join2(OLLAMA_SYSTEM_PROMPT, context_section(context).as_str()).concat(
        "\n\nTranscript: ",
    ).concat(text)
}

/// What the document posted to an Ollama server holds.
pub open spec fn generate_members(model: Seq<char>, prompt: Seq<char>) -> Map<Seq<char>, Member> {
    Map::<Seq<char>, Member>::empty().insert("model"@, Member::Text(model)).insert(
        "prompt"@,
        Member::Text(prompt),
    ).insert("stream"@, Member::Flag(false))
}

impl CleanupClient {
    /// The request that asks the Ollama server to clean `text`. `detected` is the
    /// address that a search found, where the address had to be found out.
    pub fn ollama_call(&self, text: &str, context: Option<&str>, detected: Option<String>) -> (r: Result<
        Call,
        CleanupError,
    >)
        requires
            self@ is Local,
        ensures
            r is Ok <==> self@->ollama_url.len() > 0 || detected is Some,
            r matches Ok(call) ==> call.url@ == (if self@->ollama_url.len() > 0 {
                self@->ollama_url
            } else {
                detected->0@
            }) + "/api/generate"@,
            r matches Ok(call) ==> json::parsed(call.body@) == Some(
                generate_members(
                    self@->ollama_model,
                    ollama_prompt_text(text@, opt_text(context)),
                ),
            ),
            r matches Err(e) ==> e is OllamaNotFound,
    {
        match &self.mode {
            CleanupMode::Cloud => Err(CleanupError::OllamaNotFound),
            CleanupMode::Local { ollama_url, ollama_model } => {
                let base = if ollama_url.as_str().is_empty() {
                    match detected {
                        Some(u) => u,
                        None => {
                            return Err(CleanupError::OllamaNotFound);
                        },
                    }
                } else {
                    ollama_url.clone()
                };
                let prompt = ollama_prompt(text, context);
                Ok(
                    Call {
                        url: base.concat("/api/generate"),
                        body: generate_body(ollama_model.as_str(), prompt),
                    },
                )
            },
        }
    }
}

/// What is sent to have a transcript cleaned.
#[verifier::ext_equal]
pub struct RequestView {
    pub url: Seq<char>,
    /// The members of the JSON document that is posted.
    pub body: Map<Seq<char>, Member>,
    /// The API key that goes with it.
    pub api_key: Option<Seq<char>>,
}

/// The text of an optional string.
pub open spec fn owned_text(s: Option<String>) -> Option<Seq<char>> {
    match s {
        Some(t) => Some(t@),
        None => None,
    }
}

/// What a backend is sent to have `text` cleaned: the worker gets the key with it, an
/// Ollama server does not. Nothing where there is no server to send it to.
pub open spec fn clean_request(
    mode: ModeView,
    text: Seq<char>,
    api_key: Seq<char>,
    context: Option<Seq<char>>,
    detected: Option<Seq<char>>,
) -> Option<RequestView> {
    match mode {
        ModeView::Cloud => Some(
            RequestView {
                url: CLEANUP_WORKER_URL@ + "/cleanup"@,
                body: cloud_members(text, context),
                api_key: Some(api_key),
            },
        ),
        ModeView::Local { ollama_url, ollama_model } => {
            let base = if ollama_url.len() > 0 {
                Some(ollama_url)
            } else {
                detected
            };
            match base {
                Some(b) => Some(
                    RequestView {
                        url: b + "/api/generate"@,
                        body: generate_members(ollama_model, ollama_prompt_text(text, context)),
                        api_key: None,
                    },
                ),
                None => None,
            }
        },
    }
}

impl CleanupClient {
    /// The request that asks the backend to clean `text`, and the API key that goes
    /// with it: the worker gets the key, an Ollama server does not. `detected` is the
    /// address that a search found, where the address had to be found out.
    pub fn clean_call(
        &self,
        text: &str,
        api_key: &str,
        context: Option<&str>,
        detected: Option<String>,
    ) -> (r: Result<(Call, Option<String>), CleanupError>)
        ensures
            match clean_request(
                self@,
                text@,
                api_key@,
                opt_text(context),
                owned_text(detected),
            ) {
                Some(request) => r matches Ok(sent) && sent.0.url@ == request.url && json::parsed(
                    sent.0.body@,
                ) == Some(request.body) && owned_text(sent.1) == request.api_key,
                None => r matches Err(e) && e is OllamaNotFound,
            },
    {
        if self.is_cloud() {
            return Ok((cloud_call(text, context), Some(api_key.to_owned())));
        }
        match self.ollama_call(text, context, detected) {
            Ok(call) => Ok((call, None)),
            Err(e) => Err(e),
        }
    }
}

/// In local mode the API key is ignored: whatever it is, the same is sent, and no key
/// goes with it.
pub proof fn law_local_mode_ignores_the_key(
    mode: ModeView,
    text: Seq<char>,
    key: Seq<char>,
    other_key: Seq<char>,
    context: Option<Seq<char>>,
    detected: Option<Seq<char>>,
)
    requires
        mode is Local,
    ensures
        clean_request(mode, text, key, context, detected) == clean_request(
            mode,
            text,
            other_key,
            context,
            detected,
        ),
        clean_request(mode, text, key, context, detected) matches Some(request)
            ==> request.api_key is None,
{
}

/// The JSON document that asks an Ollama server to answer `prompt` in one piece.
pub fn generate_body(model: &str, prompt: String) -> (r: Vec<u8>)
    ensures
        json::parsed(r@) == Some(generate_members(model@, prompt@)),
{
    let mut object = json::new_object();
    json::put(&mut object, "model", Scalar::Text(model.to_owned()));
    json::put(&mut object, "prompt", Scalar::Text(prompt));
    json::put(&mut object, "stream", Scalar::Flag(false));
    json::encode(&object).unwrap()
}

/// The outcome of a cleanup by an Ollama server: the status of the response, or that
/// there was none, and its body, where it reports success and could be read.
pub fn ollama_reply(status: Option<u16>, body: Option<Vec<u8>>) -> (r: Result<
    String,
    CleanupError,
>)
    requires
        is_reply(status),
    ensures
        match r {
            Ok(text) => reached(status) && body is Some && ({
                let members = json::parsed(body->0@);
                &&& members is Some
                &&& members->0.contains_key("response"@)
                &&& members->0["response"@] matches Member::Text(answer) && text@ == trimmed(answer)
            }),
            Err(e) => e == match status {
                None => CleanupError::OllamaUnreachable,
                Some(code) => if !is_success_code(code) {
                    CleanupError::OllamaStatus(code)
                } else if body is None || json::parsed(body->0@) is None {
                    CleanupError::OllamaJson
                } else {
                    CleanupError::OllamaField
                },
            },
        },
        r is Ok <==> reached(status) && body is Some && has_response(json::parsed(body->0@)),
        r matches Err(e) ==> e.wf(),
{
    match status {
        None => Err(CleanupError::OllamaUnreachable),
        Some(code) => {
            if !is_success(code) {
                return Err(CleanupError::OllamaStatus(code));
            }
            match body {
                None => Err(CleanupError::OllamaJson),
                Some(bytes) => match json::parse(bytes.as_slice()) {
                    Err(_) => Err(CleanupError::OllamaJson),
                    Ok(value) => ollama_answer(json::text_member(&value, "response")),
                },
            }
        },
    }
}

/// The cleaned text that comes of the answer in a document, where it holds one.
pub fn ollama_answer(answer: Option<String>) -> (r: Result<String, CleanupError>)
    ensures
        match answer {
            Some(a) => r matches Ok(text) && text@ == trimmed(a@),
            None => r == Err::<String, CleanupError>(CleanupError::OllamaField),
        },
{
    match answer {
        None => Err(CleanupError::OllamaField),
        Some(a) => Ok(trim(a.as_str()).to_owned()),
    }
}

/// A document that holds an answer.
pub open spec fn has_response(members: Option<Map<Seq<char>, Member>>) -> bool {
    members matches Some(m) && m.contains_key("response"@) && m["response"@] is Text
}

// ── Laws ─────────────────────────────────────────────────────────────────────

/// The address of a server is the setting without the whitespace around it and without
/// the slashes at its end. A blank setting and "auto" give none.
pub proof fn law_ollama_address(setting: Seq<char>)
    ensures
        ({
            let t = trimmed(setting);
            let address = ollama_address(setting);
            &&& t == "auto"@ ==> address.len() == 0
            &&& address.is_prefix_of(t)
            &&& address.len() > 0 ==> address.last() != '/'
            &&& t != "auto"@ ==> forall|i: int|
                address.len() <= i < t.len() ==> #[trigger] t[i] == '/'
            &&& ollama_address(t) == address
        }),
{
    let t = trimmed(setting);
    crate::text::law_without_trailing(t, '/');
    crate::text::law_trim_is_idempotent(setting);
    assert(Seq::<char>::empty() =~= t.subrange(0, 0));
}

/// The names of the modes: "cloud" is the worker, "local" is the server of the settings,
/// whose model is taken as it is named.
pub proof fn law_mode_names(ollama_url: Seq<char>, ollama_model: Seq<char>)
    ensures
        client_for("cloud"@, ollama_url, ollama_model) is Cloud,
        client_for("local"@, ollama_url, ollama_model) == (ModeView::Local {
            ollama_url: ollama_address(ollama_url),
            ollama_model,
        }),
{
    reveal_strlit("cloud");
    reveal_strlit("local");
    assert("cloud"@[0] == 'c');
    assert("local"@[0] == 'l');
}

/// The ports that are probed follow one another from 11434 on, each at this machine, and
/// there are three of them.
pub proof fn law_probed_ports(k: int)
    requires
        0 <= k,
    ensures
        probe_port(k) == 11434 + k,
        probe_address(k) == "http://localhost:"@ + decimal((11434 + k) as nat),
        tags_address(probe_address(k)) == probe_address(k) + "/api/tags"@,
        OLLAMA_PROBES == 3,
        crate::text::value_of(decimal(probe_port(k))) == 11434 + k,
{
    crate::text::law_decimal(probe_port(k));
}

/// A server is reached where it answers with a status from 200 to 299, and not where it
/// does not answer.
pub proof fn law_reached(status: u16)
    ensures
        reached(Some(status)) <==> 200 <= status <= 299,
        !reached(None),
{
}

/// The text before the cursor goes into a prompt without the whitespace around it, right
/// before a line break and behind words that are the same for every text; and where it is
/// blank, nothing does.
pub proof fn law_context_section(context: Seq<char>, other: Seq<char>)
    ensures
        context_text(None) == Seq::<char>::empty(),
        trimmed(context).len() == 0 <==> context_text(Some(context)).len() == 0,
        context_text(Some(context)) == context_text(Some(trimmed(context))),
        trimmed(context).len() > 0 ==> (trimmed(context) + seq!['\n']).is_suffix_of(
            context_text(Some(context)),
        ),
        trimmed(context).len() > 0 && trimmed(other).len() > 0 ==> context_text(Some(context)).take(
            context_text(Some(context)).len() - trimmed(context).len() - 1,
        ) == context_text(Some(other)).take(
            context_text(Some(other)).len() - trimmed(other).len() - 1,
        ),
{
    reveal_strlit("\n");
    assert("\n"@ =~= seq!['\n']);
    crate::text::law_trim_is_idempotent(context);
    let t = trimmed(context);
    if t.len() > 0 {
        let whole = context_text(Some(context));
        let end = t + seq!['\n'];
        assert(whole =~= CONTEXT_RULE@ + end);
        assert(whole.subrange(whole.len() - end.len(), whole.len() as int) =~= end);
        assert(whole.take(whole.len() - t.len() - 1) =~= CONTEXT_RULE@);
        let u = trimmed(other);
        if u.len() > 0 {
            let second = context_text(Some(other));
            assert(second =~= CONTEXT_RULE@ + u + seq!['\n']);
            assert(second.take(second.len() - u.len() - 1) =~= CONTEXT_RULE@);
        }
    }
}

/// The prompt for a server is one that depends on the text before the cursor alone,
/// followed by the transcript as it is. It begins with the rules, and the text before the
/// cursor is in it.
pub proof fn law_ollama_prompt(text: Seq<char>, context: Option<Seq<char>>)
    ensures
        ollama_prompt_text(text, context) == ollama_prompt_text(Seq::empty(), context) + text,
        OLLAMA_SYSTEM_PROMPT@.is_prefix_of(ollama_prompt_text(text, context)),
        "\n\nTranscript: "@.is_suffix_of(ollama_prompt_text(Seq::empty(), context)),
        ollama_prompt_text(text, context).len() == ollama_prompt_text(text, None).len()
            + context_text(context).len(),
        context matches Some(c) ==> crate::text::contains_text(
            ollama_prompt_text(text, context),
            trimmed(c),
        ),
{
    let start = ollama_prompt_text(Seq::empty(), context);
    let whole = ollama_prompt_text(text, context);
    let mark = "\n\nTranscript: "@;
    assert(start =~= OLLAMA_SYSTEM_PROMPT@ + context_text(context) + mark);
    assert(whole =~= start + text);
    assert(whole.subrange(0, OLLAMA_SYSTEM_PROMPT@.len() as int) =~= OLLAMA_SYSTEM_PROMPT@);
    assert(start.subrange(start.len() - mark.len(), start.len() as int) =~= mark);
    if let Some(c) = context {
        let t = trimmed(c);
        if t.len() == 0 {
            assert(whole =~= Seq::<char>::empty() + t + whole);
            crate::text::law_contains_what_it_is_made_of(Seq::empty(), t, whole);
        } else {
            let left = OLLAMA_SYSTEM_PROMPT@ + CONTEXT_RULE@;
            let right = "\n"@ + mark + text;
            assert(whole =~= left + t + right);
            crate::text::law_contains_what_it_is_made_of(left, t, right);
        }
    }
}

proof fn lemma_member_names()
    ensures
        "model"@ != "prompt"@,
        "model"@ != "stream"@,
        "prompt"@ != "stream"@,
        "text"@ != "context"@,
{
    reveal_strlit("model");
    reveal_strlit("prompt");
    reveal_strlit("stream");
    reveal_strlit("text");
    reveal_strlit("context");
    assert("model"@[0] == 'm');
    assert("prompt"@[0] == 'p');
    assert("stream"@[0] == 's');
    assert("text"@[0] == 't');
    assert("context"@[0] == 'c');
}

/// The documents that are posted hold these members and no others: to a server the model,
/// the prompt and that the answer is to come in one piece; to the worker the transcript
/// and, exactly where there is one, the text before the cursor.
pub proof fn law_posted_members(
    model: Seq<char>,
    prompt: Seq<char>,
    text: Seq<char>,
    context: Option<Seq<char>>,
)
    ensures
        ({
            let m = generate_members(model, prompt);
            &&& m.dom() == set!["model"@, "prompt"@, "stream"@]
            &&& m["model"@] == Member::Text(model)
            &&& m["prompt"@] == Member::Text(prompt)
            &&& m["stream"@] == Member::Flag(false)
        }),
        ({
            let m = cloud_members(text, context);
            &&& m["text"@] == Member::Text(text)
            &&& match context {
                Some(c) => m.dom() == set!["text"@, "context"@] && m["context"@] == Member::Text(c),
                None => m.dom() == set!["text"@],
            }
        }),
{
    lemma_member_names();
    assert(generate_members(model, prompt).dom() =~= set!["model"@, "prompt"@, "stream"@]);
    match context {
        Some(c) => {
            assert(cloud_members(text, context).dom() =~= set!["text"@, "context"@]);
        },
        None => {
            assert(cloud_members(text, context).dom() =~= set!["text"@]);
        },
    }
}

/// Whatever the backend, what is sent holds the transcript as it is; the key goes with it
/// exactly to the worker; and a server is asked at the address of the settings or, where
/// they name none, at the one that was found.
pub proof fn law_transcript_is_sent(
    mode: ModeView,
    text: Seq<char>,
    api_key: Seq<char>,
    context: Option<Seq<char>>,
    detected: Option<Seq<char>>,
)
    ensures
        match clean_request(mode, text, api_key, context, detected) {
            None => mode matches ModeView::Local { ollama_url, .. } && ollama_url.len() == 0
                && detected is None,
            Some(request) => match mode {
                ModeView::Cloud => {
                    &&& request.api_key == Some(api_key)
                    &&& request.body["text"@] == Member::Text(text)
                    &&& request.body.contains_key("context"@) <==> context is Some
                    &&& context matches Some(c) ==> request.body["context"@] == Member::Text(c)
                    &&& request.url == CLEANUP_WORKER_URL@ + "/cleanup"@
                },
                ModeView::Local { ollama_url, ollama_model } => {
                    &&& request.api_key is None
                    &&& request.body["model"@] == Member::Text(ollama_model)
                    &&& request.body["prompt"@] == Member::Text(
                        ollama_prompt_text(Seq::empty(), context) + text,
                    )
                    &&& request.body["stream"@] == Member::Flag(false)
                    &&& ollama_url.len() > 0 ==> request.url == ollama_url + "/api/generate"@
                    &&& ollama_url.len() == 0 ==> detected is Some && request.url == detected->0
                        + "/api/generate"@
                },
            },
        },
{
    lemma_member_names();
    law_ollama_prompt(text, context);
}

/// An error tells the status that caused it, and what the worker said.
pub proof fn law_errors_tell_the_status(status: u16, body: String)
    ensures
        status_text(status).is_suffix_of(CleanupError::OllamaStatus(status).text()),
        crate::text::contains_text(
            (CleanupError::WorkerStatus { status, body }).text(),
            status_text(status),
        ),
        body@.is_suffix_of((CleanupError::WorkerStatus { status, body }).text()),
        forall|other: String|
            #![trigger (CleanupError::WorkerStatus { status, body: other }).text()]
            other@.len() == 0 ==> (CleanupError::WorkerStatus { status, body }).text() == (
            CleanupError::WorkerStatus { status, body: other }).text() + body@,
        decimal(status as nat).is_suffix_of(CleanupError::PingStatus(status).text()),
{
    let line = status_text(status);
    let ollama = CleanupError::OllamaStatus(status).text();
    assert(ollama.subrange(ollama.len() - line.len(), ollama.len() as int) =~= line);
    let worker = (CleanupError::WorkerStatus { status, body }).text();
    assert(worker.subrange(worker.len() - body@.len(), worker.len() as int) =~= body@);
    assert(worker =~= "cleanup worker returned "@ + line + (": "@ + body@));
    crate::text::law_contains_what_it_is_made_of(
        "cleanup worker returned "@,
        line,
        ": "@ + body@,
    );
    assert forall|other: String|
        #![trigger (CleanupError::WorkerStatus { status, body: other }).text()]
        other@.len() == 0 implies worker == (CleanupError::WorkerStatus {
        status,
        body: other,
    }).text() + body@ by {
        assert(other@ =~= Seq::<char>::empty());
        assert(worker =~= (CleanupError::WorkerStatus { status, body: other }).text() + body@);
    }
    let ping = CleanupError::PingStatus(status).text();
    let number = decimal(status as nat);
    assert(ping.subrange(ping.len() - number.len(), ping.len() as int) =~= number);
}

} // verus!
