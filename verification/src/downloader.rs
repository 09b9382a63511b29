//! Model files: where they are looked for, and how they are downloaded.

use vstd::prelude::*;
use crate::http::{is_status, is_success, is_success_code, status_line, status_text};
use crate::text::{decimal, join2, number};

verus! {

// ── Models ───────────────────────────────────────────────────────────────────

/// The models that the application can download.
#[derive(Clone, Copy, PartialEq, Eq, Structural)]
pub enum Model {
    /// The speech recognition model.
    Whisper,
    /// The language model for local cleanup.
    Llm,
}

/// The directory that models are kept in, below the application's data directory.
pub const MODEL_DIR: &'static str = "models";

pub const MODEL_URL: &'static str =
    "https://huggingface.co/ggerganov/whisper.cpp/resolve/main/ggml-large-v3-turbo.bin";

pub const MODEL_FILENAME: &'static str = "ggml-whisper-turbo.bin";

pub const LLM_MODEL_URL: &'static str =
    "https://huggingface.co/bartowski/Qwen2.5-1.5B-Instruct-GGUF/resolve/main/Qwen2.5-1.5B-Instruct-Q4_K_M.gguf";

pub const LLM_MODEL_FILENAME: &'static str = "qwen2.5-1.5b-instruct-q4_k_m.gguf";

impl Model {
    /// Where the model is downloaded from.
    pub open spec fn url_text(self) -> Seq<char> {
        match self {
            Model::Whisper => MODEL_URL@,
            Model::Llm => LLM_MODEL_URL@,
        }
    }

    /// What the model's file is called.
    pub open spec fn file_text(self) -> Seq<char> {
        match self {
            Model::Whisper => MODEL_FILENAME@,
            Model::Llm => LLM_MODEL_FILENAME@,
        }
    }

    /// What the names of the events about its download begin with.
    pub open spec fn event_text(self) -> Seq<char> {
        match self {
            Model::Whisper => "neuma://download"@,
            Model::Llm => "neuma://llm-download"@,
        }
    }

    /// Where the model is downloaded from.
    pub fn url(self) -> (r: &'static str)
        ensures
            r@ == self.url_text(),
    {
        match self {
            Model::Whisper => MODEL_URL,
            Model::Llm => LLM_MODEL_URL,
        }
    }

    /// What the model's file is called.
    pub fn file_name(self) -> (r: &'static str)
        ensures
            r@ == self.file_text(),
    {
        match self {
            Model::Whisper => MODEL_FILENAME,
            Model::Llm => LLM_MODEL_FILENAME,
        }
    }

    /// The name of the event that reports progress.
    pub fn progress_event(self) -> (r: String)
        ensures
            r@ == self.event_text() + "-progress"@,
    {
        join2(self.event_prefix(), "-progress")
    }

    /// The name of the event that reports success.
    pub fn complete_event(self) -> (r: String)
        ensures
            r@ == self.event_text() + "-complete"@,
    {
        join2(self.event_prefix(), "-complete")
    }

    /// The name of the event that reports failure.
    pub fn error_event(self) -> (r: String)
        ensures
            r@ == self.event_text() + "-error"@,
    {
        join2(self.event_prefix(), "-error")
    }

    fn event_prefix(self) -> (r: &'static str)
        ensures
            r@ == self.event_text(),
    {
        match self {
            Model::Whisper => "neuma://download",
            Model::Llm => "neuma://llm-download",
        }
    }
}

/// The name of the file that a download is collected in: the name of its target
/// with `.part` appended.
pub fn part_file_name(target: &str) -> (r: String)
    ensures
        r@ == target@ + ".part"@,
{
    join2(target, ".part")
}

// ── Search ───────────────────────────────────────────────────────────────────

/// The path that the caller asks for, before any other.
#[derive(Clone, Copy, PartialEq, Eq, Structural)]
pub enum CustomPath {
    /// No particular path.
    Unset,
    /// An absolute path.
    Absolute { exists: bool },
    /// A path below the working directory, which may be unknown.
    Relative { below_cwd: Option<bool> },
}

impl CustomPath {
    /// There is a file at the path.
    pub open spec fn is_there(self) -> bool {
        self == (CustomPath::Absolute { exists: true }) || self == (CustomPath::Relative {
            below_cwd: Some(true),
        })
    }
}

/// Where a model was found.
#[derive(Clone, Copy, PartialEq, Eq, Structural)]
pub enum Found {
    /// At the path that the caller asked for.
    Custom,
    /// In the application's data directory.
    Primary,
    /// Below an ancestor of the working directory, counted from the working
    /// directory itself.
    Ancestor(usize),
}

/// How many directories are walked up from the working directory.
pub const WALK_UP: usize = 4;

/// The model lies below the `k`-th directory of the walk, and below none before it.
pub open spec fn first_on_walk(ancestors: Seq<bool>, k: int) -> bool {
    &&& 0 <= k < WALK_UP
    &&& k < ancestors.len()
    &&& ancestors[k]
    &&& forall|i: int| 0 <= i < k ==> !ancestors[i]
}

/// Where the model is taken from: the custom path, else the data directory, else,
/// in a development build, the nearest of the first directories from the working
/// directory up. `ancestors` says of each of these, nearest first, whether the model
/// lies below it, and is empty where the working directory is unknown.
pub fn find_model(
    custom: CustomPath,
    primary_exists: bool,
    ancestors: &Vec<bool>,
    dev_build: bool,
) -> (r: Option<Found>)
    ensures
        r == Some(Found::Custom) <==> custom.is_there(),
        r == Some(Found::Primary) <==> !custom.is_there() && primary_exists,
        forall|k: usize|
            r == Some(Found::Ancestor(k)) <==> !custom.is_there() && !primary_exists && dev_build
                && #[trigger] first_on_walk(ancestors@, k as int),
        r is None <==> !custom.is_there() && !primary_exists && (dev_build ==> forall|i: int|
            0 <= i < WALK_UP && i < ancestors@.len() ==> !#[trigger] ancestors@[i]),
{
    let asked = match custom {
        CustomPath::Unset => false,
        CustomPath::Absolute { exists } => exists,
        CustomPath::Relative { below_cwd } => match below_cwd {
            Some(e) => e,
            None => false,
        },
    };
    if asked {
        return Some(Found::Custom);
    }
    find_llm_model(primary_exists, ancestors, dev_build)
}

/// Where the language model is taken from: the data directory, else, in a
/// development build, the nearest directory of the walk.
pub fn find_llm_model(primary_exists: bool, ancestors: &Vec<bool>, dev_build: bool) -> (r: Option<
    Found,
>)
    ensures
        r != Some(Found::Custom),
        r == Some(Found::Primary) <==> primary_exists,
        forall|k: usize|
            r == Some(Found::Ancestor(k)) <==> !primary_exists && dev_build
                && #[trigger] first_on_walk(ancestors@, k as int),
        r is None <==> !primary_exists && (dev_build ==> forall|i: int|
            0 <= i < WALK_UP && i < ancestors@.len() ==> !#[trigger] ancestors@[i]),
{
    if primary_exists {
        return Some(Found::Primary);
    }
    if dev_build {
        let mut k: usize = 0;
        while k < WALK_UP && k < ancestors.len()
            invariant
                !primary_exists,
                dev_build,
                k <= WALK_UP,
                k <= ancestors@.len(),
                forall|i: int| 0 <= i < k ==> !ancestors@[i],
            decreases WALK_UP - k,
        {
            if ancestors[k] {
                assert(first_on_walk(ancestors@, k as int));
                return Some(Found::Ancestor(k));
            }
            k += 1;
        }
    }
    None
}

// ── Download ─────────────────────────────────────────────────────────────────

/// How long a download may take, in milliseconds.
pub const DOWNLOAD_TIMEOUT_MS: u64 = 600_000;

/// The status of a response that holds the part of the file that was asked for.
pub const PARTIAL_CONTENT: u16 = 206;

/// Progress is reported no more often than this.
pub const REPORT_INTERVAL_MS: u64 = 200;

/// Why a download failed.
pub enum DownloadError {
    /// The models directory could not be created.
    Directory,
    /// The HTTP client could not be built; the client's own words.
    Client(String),
    /// The request got no response.
    Request,
    /// The response carried a status other than success.
    Status(u16),
    /// The partial file could not be opened, for appending or afresh.
    Open { append: bool },
    /// The user cancelled.
    Cancelled,
    /// The response broke off with an error.
    Read,
    /// A chunk could not be written.
    Write,
    /// Flushing or measuring the file failed; the system's own words.
    File(String),
    /// The partial file could not be renamed.
    Rename,
    /// The file does not have the size that the server reported.
    Incomplete { reported: u64, received: u64 },
}

impl DownloadError {
    /// The error came of a response with a valid status.
    pub open spec fn wf(self) -> bool {
        self matches DownloadError::Status(code) ==> is_status(code)
    }

    /// What the user is told.
    pub open spec fn text(self) -> Seq<char> {
        match self {
            DownloadError::Directory => "failed to create models directory"@,
            DownloadError::Client(e) => e@,
            DownloadError::Request => "failed to start download"@,
            DownloadError::Status(code) => "unexpected HTTP status: "@ + status_text(code),
            DownloadError::Open { append } => if append {
                "failed to open partial download file"@
            } else {
                "failed to create download file"@
            },
            DownloadError::Cancelled => "cancelled"@,
            DownloadError::Read => "error reading download chunk"@,
            DownloadError::Write => "failed to write chunk to disk"@,
            DownloadError::File(e) => e@,
            DownloadError::Rename => "failed to finalize downloaded file"@,
            DownloadError::Incomplete { reported, received } => "download incomplete: server reported "@
                + decimal(reported as nat) + " bytes but received "@ + decimal(received as nat),
        }
    }

    /// What the user is told.
    pub fn message(&self) -> (r: String)
        requires
            self.wf(),
        ensures
            r@ == self.text(),
    {
        match self {
            DownloadError::Directory => "failed to create models directory".to_owned(),
            DownloadError::Client(e) => e.clone(),
            DownloadError::Request => "failed to start download".to_owned(),
            DownloadError::Status(code) => join2(
                "unexpected HTTP status: ",
                status_line(*code).as_str(),
            ),
            DownloadError::Open { append } => if *append {
                "failed to open partial download file".to_owned()
            } else {
                "failed to create download file".to_owned()
            },
            DownloadError::Cancelled => "cancelled".to_owned(),
            DownloadError::Read => "error reading download chunk".to_owned(),
            DownloadError::Write => "failed to write chunk to disk".to_owned(),
            DownloadError::File(e) => e.clone(),
            DownloadError::Rename => "failed to finalize downloaded file".to_owned(),
            DownloadError::Incomplete { reported, received } => {
                join2("download incomplete: server reported ", number(*reported).as_str()).concat(
                    " bytes but received ",
                ).concat(number(*received).as_str())
            },
        }
    }
}

/// What a download waits for.
#[derive(Clone, Copy, PartialEq, Eq, Structural)]
pub enum Phase {
    Directory,
    Part,
    Client,
    Response,
    Opening,
    CancelFlag,
    Chunk,
    /// The partial file is being emptied, for a chunk of this many bytes to be written
    /// or, without one, to be renamed.
    Emptying { chunk: Option<u64> },
    /// A chunk of `len` bytes is being written.
    Writing { len: u64 },
    Reporting,
    Flushing,
    Renaming,
    Measuring,
    /// A file of the wrong size is being removed.
    Removing { received: u64 },
    Announcing,
    Over,
}

/// What the world answers to a [`Task`].
pub enum Event {
    /// The models directory is there, or could not be created.
    DirectoryReady(bool),
    /// The size of the partial file; nothing where there is none or its size cannot
    /// be read.
    PartSize(Option<u64>),
    /// The HTTP client is built, or failed with these words.
    ClientBuilt(Result<(), String>),
    /// The response: its status and the length it announces; nothing where there
    /// was none.
    Responded(Option<(u16, Option<u64>)>),
    /// The partial file is open, or could not be opened.
    Opened(bool),
    /// Whether the user has cancelled.
    CancelFlag(bool),
    /// The next chunk's length; nothing at the end of the response.
    ChunkRead(Option<u64>),
    /// The response broke off.
    ReadFailed,
    /// The partial file is emptied, or could not be.
    Emptied(bool),
    /// The chunk is written, this long after the last report; or writing failed.
    Written { ok: bool, since_report_ms: u64 },
    /// Progress has been reported.
    Reported,
    /// The file is flushed and closed, or failed with these words.
    Flushed(Result<(), String>),
    /// The partial file bears the target's name, or could not be renamed.
    Renamed(bool),
    /// The size of the target, or the words of the failure to read it.
    Measured(Result<u64, String>),
    /// The file of the wrong size has been dealt with.
    Removed,
    /// The end of the download has been announced.
    Announced,
}

/// How far a download is.
#[derive(Clone, Copy, PartialEq, Eq, Structural)]
pub struct Progress {
    /// The bytes on disk.
    pub downloaded: u64,
    /// The bytes that the file will have; 0 where the server did not say.
    pub total: u64,
    /// The bytes that this session fetched.
    pub session_bytes: u64,
    /// The bytes still to come.
    pub remaining: u64,
}

/// What is to be done next.
pub enum Task {
    CreateDirectory,
    FindPart,
    BuildClient,
    /// Request the file, from this byte on where one is given.
    Send { from: Option<u64> },
    /// Open the partial file, created where it is missing and as it is where not: at
    /// its end, or to be emptied later.
    OpenPart { append: bool },
    /// Empty the partial file.
    EmptyPart,
    CheckCancel,
    ReadChunk,
    WriteChunk,
    Report(Progress),
    Flush,
    RenamePart,
    MeasureTarget,
    RemoveTarget,
    Announce,
    Finish(Result<(), DownloadError>),
}

/// The state of a download.
#[derive(Clone, Copy, PartialEq, Eq, Structural)]
pub struct Download {
    phase: Phase,
    already: u64,
    total: u64,
    downloaded: u64,
    stale: bool,
}

/// The state of a download.
pub struct DownloadView {
    pub phase: Phase,
    /// The bytes that an earlier session left and this one keeps.
    pub already: u64,
    /// The bytes that the file will have; 0 where the server did not say.
    pub total: u64,
    /// The bytes on disk.
    pub downloaded: u64,
    /// Whether the partial file may hold bytes that do not count, and has to be emptied
    /// before anything is written to it.
    pub stale: bool,
}

impl View for Download {
    type V = DownloadView;

    closed spec fn view(&self) -> DownloadView {
        DownloadView {
            phase: self.phase,
            already: self.already,
            total: self.total,
            downloaded: self.downloaded,
            stale: self.stale,
        }
    }
}

/// The event is one that the phase waits for, with numbers that fit their type.
pub open spec fn expects(v: DownloadView, e: Event) -> bool {
    match e {
        Event::DirectoryReady(_) => v.phase == Phase::Directory,
        Event::PartSize(_) => v.phase == Phase::Part,
        Event::ClientBuilt(_) => v.phase == Phase::Client,
        Event::Responded(reply) => v.phase == Phase::Response && (reply matches Some(
            (status, length),
        ) ==> is_status(status) && (length matches Some(n) ==> v.kept(status) + n <= u64::MAX)),
        Event::Opened(_) => v.phase == Phase::Opening,
        Event::CancelFlag(_) => v.phase == Phase::CancelFlag,
        Event::ChunkRead(chunk) => v.phase == Phase::Chunk && (chunk matches Some(len)
            ==> v.downloaded + len <= u64::MAX),
        Event::ReadFailed => v.phase == Phase::Chunk,
        Event::Emptied(_) => v.phase is Emptying,
        Event::Written { .. } => v.phase is Writing,
        Event::Reported => v.phase == Phase::Reporting,
        Event::Flushed(_) => v.phase == Phase::Flushing,
        Event::Renamed(_) => v.phase == Phase::Renaming,
        Event::Measured(_) => v.phase == Phase::Measuring,
        Event::Removed => v.phase is Removing,
        Event::Announced => v.phase == Phase::Announcing,
    }
}

impl DownloadView {
    /// The counters agree with one another.
    pub open spec fn wf(self) -> bool {
        &&& self.already <= self.downloaded
        &&& self.phase matches Phase::Writing { len } ==> self.downloaded + len <= u64::MAX
        &&& self.phase matches Phase::Emptying { chunk } ==> (chunk matches Some(len)
            ==> self.downloaded + len <= u64::MAX)
    }

    /// The download goes on to wait in `phase`.
    pub open spec fn at(self, phase: Phase) -> DownloadView {
        DownloadView { phase, ..self }
    }

    /// The download ends with an error.
    pub open spec fn fails(self, e: DownloadError) -> (DownloadView, Task) {
        (self.at(Phase::Over), Task::Finish(Err(e)))
    }

    /// The bytes of an earlier session that are kept after a response with this
    /// status: all of them where the response holds the rest, and none where it holds
    /// the whole file.
    pub open spec fn kept(self, status: u16) -> u64 {
        if status == PARTIAL_CONTENT {
            self.already
        } else {
            0
        }
    }

    /// The bytes that the file will have: those left by an earlier session and those
    /// announced, or 0 where none are announced.
    pub open spec fn total_with(self, length: Option<u64>) -> u64 {
        match length {
            Some(n) => if n > 0 {
                (self.already + n) as u64
            } else {
                0
            },
            None => 0,
        }
    }

    /// How far the download is.
    pub open spec fn progress(self) -> Progress {
        Progress {
            downloaded: self.downloaded,
            total: self.total,
            session_bytes: (self.downloaded - self.already) as u64,
            remaining: if self.total > self.downloaded {
                (self.total - self.downloaded) as u64
            } else {
                0
            },
        }
    }

    /// The answer to an event that is waited for.
    pub open spec fn next(self, e: Event) -> (DownloadView, Task) {
        match e {
            Event::DirectoryReady(ok) => if ok {
                (self.at(Phase::Part), Task::FindPart)
            } else {
                self.fails(DownloadError::Directory)
            },
            Event::PartSize(size) => {
                let n = match size {
                    Some(n) => n,
                    None => 0,
                };
                (
                    DownloadView { phase: Phase::Client, already: n, downloaded: n, ..self },
                    Task::BuildClient,
                )
            },
            Event::ClientBuilt(built) => match built {
                Ok(_) => (
                    self.at(Phase::Response),
                    Task::Send {
                        from: if self.already > 0 {
                            Some(self.already)
                        } else {
                            None
                        },
                    },
                ),
                Err(words) => self.fails(DownloadError::Client(words)),
            },
            Event::Responded(reply) => match reply {
                Some((status, length)) => if is_success_code(status) {
                    let then = DownloadView {
                        phase: Phase::Opening,
                        already: self.kept(status),
                        downloaded: self.kept(status),
                        stale: self.kept(status) == 0,
                        ..self
                    };
                    (
                        DownloadView { total: then.total_with(length), ..then },
                        Task::OpenPart { append: then.already > 0 },
                    )
                } else {
                    self.fails(DownloadError::Status(status))
                },
                None => self.fails(DownloadError::Request),
            },
            Event::Opened(ok) => if ok {
                (self.at(Phase::CancelFlag), Task::CheckCancel)
            } else {
                self.fails(DownloadError::Open { append: self.already > 0 })
            },
            Event::CancelFlag(cancelled) => if cancelled {
                self.fails(DownloadError::Cancelled)
            } else {
                (self.at(Phase::Chunk), Task::ReadChunk)
            },
            Event::ChunkRead(chunk) => match chunk {
                Some(len) => if self.stale {
                    (self.at(Phase::Emptying { chunk }), Task::EmptyPart)
                } else {
                    (self.at(Phase::Writing { len }), Task::WriteChunk)
                },
                None => (self.at(Phase::Flushing), Task::Flush),
            },
            Event::Emptied(ok) => if ok {
                let then = DownloadView { stale: false, ..self };
                match self.phase->chunk {
                    Some(len) => (then.at(Phase::Writing { len }), Task::WriteChunk),
                    None => (then.at(Phase::Renaming), Task::RenamePart),
                }
            } else {
                self.fails(DownloadError::Open { append: false })
            },
            Event::ReadFailed => self.fails(DownloadError::Read),
            Event::Written { ok, since_report_ms } => if ok {
                let then = DownloadView {
                    downloaded: (self.downloaded + self.phase->len) as u64,
                    ..self
                };
                if since_report_ms >= REPORT_INTERVAL_MS {
                    (then.at(Phase::Reporting), Task::Report(then.progress()))
                } else {
                    (then.at(Phase::CancelFlag), Task::CheckCancel)
                }
            } else {
                self.fails(DownloadError::Write)
            },
            Event::Reported => (self.at(Phase::CancelFlag), Task::CheckCancel),
            Event::Flushed(done) => match done {
                Ok(_) => if self.stale {
                    (self.at(Phase::Emptying { chunk: None }), Task::EmptyPart)
                } else {
                    (self.at(Phase::Renaming), Task::RenamePart)
                },
                Err(words) => self.fails(DownloadError::File(words)),
            },
            Event::Renamed(ok) => if !ok {
                self.fails(DownloadError::Rename)
            } else if self.total > 0 {
                (self.at(Phase::Measuring), Task::MeasureTarget)
            } else {
                (self.at(Phase::Announcing), Task::Announce)
            },
            Event::Measured(size) => match size {
                Ok(n) => if n == self.total {
                    (self.at(Phase::Announcing), Task::Announce)
                } else {
                    (self.at(Phase::Removing { received: n }), Task::RemoveTarget)
                },
                Err(words) => self.fails(DownloadError::File(words)),
            },
            Event::Removed => self.fails(
                DownloadError::Incomplete {
                    reported: self.total,
                    received: self.phase->received,
                },
            ),
            Event::Announced => (self.at(Phase::Over), Task::Finish(Ok(()))),
        }
    }
}

impl Download {
    /// Begins a download: the models directory comes first, where the target has a
    /// directory.
    pub fn begin(has_directory: bool) -> (r: (Download, Task))
        ensures
            r.0@.wf(),
            r.0@ == (DownloadView {
                phase: if has_directory {
                    Phase::Directory
                } else {
                    Phase::Part
                },
                already: 0,
                total: 0,
                downloaded: 0,
                stale: false,
            }),
            r.1 == if has_directory {
                Task::CreateDirectory
            } else {
                Task::FindPart
            },
    {
        if has_directory {
            (
                Download { phase: Phase::Directory, already: 0, total: 0, downloaded: 0, stale: false },
                Task::CreateDirectory,
            )
        } else {
            (
                Download { phase: Phase::Part, already: 0, total: 0, downloaded: 0, stale: false },
                Task::FindPart,
            )
        }
    }

    /// Tells whether the event is one that is waited for.
    pub fn accepts(&self, e: &Event) -> (r: bool)
        ensures
            r == expects(self@, *e),
    {
        match e {
            Event::DirectoryReady(_) => self.phase == Phase::Directory,
            Event::PartSize(_) => self.phase == Phase::Part,
            Event::ClientBuilt(_) => self.phase == Phase::Client,
            Event::Responded(reply) => self.phase == Phase::Response && match reply {
                Some((status, length)) => 100 <= *status && *status <= 999 && match length {
                    Some(n) => *status != PARTIAL_CONTENT || *n <= u64::MAX - self.already,
                    None => true,
                },
                None => true,
            },
            Event::Opened(_) => self.phase == Phase::Opening,
            Event::CancelFlag(_) => self.phase == Phase::CancelFlag,
            Event::ChunkRead(chunk) => self.phase == Phase::Chunk && match chunk {
                Some(len) => *len <= u64::MAX - self.downloaded,
                None => true,
            },
            Event::ReadFailed => self.phase == Phase::Chunk,
            Event::Emptied(_) => match self.phase {
                Phase::Emptying { .. } => true,
                _ => false,
            },
            Event::Written { .. } => match self.phase {
                Phase::Writing { .. } => true,
                _ => false,
            },
            Event::Reported => self.phase == Phase::Reporting,
            Event::Flushed(_) => self.phase == Phase::Flushing,
            Event::Renamed(_) => self.phase == Phase::Renaming,
            Event::Measured(_) => self.phase == Phase::Measuring,
            Event::Removed => match self.phase {
                Phase::Removing { .. } => true,
                _ => false,
            },
            Event::Announced => self.phase == Phase::Announcing,
        }
    }

    /// Ends the download with an error.
    fn fail(&mut self, e: DownloadError) -> (r: Task)
        ensures
            (final(self)@, r) == old(self)@.fails(e),
    {
        self.phase = Phase::Over;
        Task::Finish(Err(e))
    }

    /// Takes in an event that is waited for, and says what is to be done next.
    pub fn step(&mut self, e: Event) -> (r: Task)
        requires
            old(self)@.wf(),
            expects(old(self)@, e),
        ensures
            (final(self)@, r) == old(self)@.next(e),
            final(self)@.wf(),
            r matches Task::Finish(Err(error)) ==> error.wf(),
    {
        match e {
            Event::DirectoryReady(ok) => {
                if !ok {
                    return self.fail(DownloadError::Directory);
                }
                self.phase = Phase::Part;
                Task::FindPart
            },
            Event::PartSize(size) => {
                self.already = match size {
                    Some(n) => n,
                    None => 0,
                };
                self.downloaded = self.already;
                self.phase = Phase::Client;
                Task::BuildClient
            },
            Event::ClientBuilt(built) => match built {
                Ok(_) => {
                    self.phase = Phase::Response;
                    let from = if self.already > 0 {
                        Some(self.already)
                    } else {
                        None
                    };
                    Task::Send { from }
                },
                Err(words) => self.fail(DownloadError::Client(words)),
            },
            Event::Responded(reply) => match reply {
                Some((status, length)) => {
                    if !is_success(status) {
                        return self.fail(DownloadError::Status(status));
                    }
                    if status != PARTIAL_CONTENT {
                        // The response holds the whole file: begin anew.
                        self.already = 0;
                    }
                    self.downloaded = self.already;
                    self.stale = self.already == 0;
                    let content_length = match length {
                        Some(n) => n,
                        None => 0,
                    };
                    self.total = if self.already > 0 && content_length > 0 {
                        self.already + content_length
                    } else {
                        content_length
                    };
                    self.phase = Phase::Opening;
                    Task::OpenPart { append: self.already > 0 }
                },
                None => self.fail(DownloadError::Request),
            },
            Event::Opened(ok) => {
                if !ok {
                    return self.fail(DownloadError::Open { append: self.already > 0 });
                }
                self.phase = Phase::CancelFlag;
                Task::CheckCancel
            },
            Event::CancelFlag(cancelled) => {
                if cancelled {
                    return self.fail(DownloadError::Cancelled);
                }
                self.phase = Phase::Chunk;
                Task::ReadChunk
            },
            Event::ChunkRead(chunk) => match chunk {
                Some(len) => {
                    if self.stale {
                        self.phase = Phase::Emptying { chunk };
                        return Task::EmptyPart;
                    }
                    self.phase = Phase::Writing { len };
                    Task::WriteChunk
                },
                None => {
                    self.phase = Phase::Flushing;
                    Task::Flush
                },
            },
            Event::Emptied(ok) => {
                if !ok {
                    return self.fail(DownloadError::Open { append: false });
                }
                let chunk = match self.phase {
                    Phase::Emptying { chunk } => chunk,
                    _ => None,
                };
                self.stale = false;
                match chunk {
                    Some(len) => {
                        self.phase = Phase::Writing { len };
                        Task::WriteChunk
                    },
                    None => {
                        self.phase = Phase::Renaming;
                        Task::RenamePart
                    },
                }
            },
            Event::ReadFailed => self.fail(DownloadError::Read),
            Event::Written { ok, since_report_ms } => {
                if !ok {
                    return self.fail(DownloadError::Write);
                }
                if let Phase::Writing { len } = self.phase {
                    self.downloaded = self.downloaded + len;
                }
                if since_report_ms >= REPORT_INTERVAL_MS {
                    self.phase = Phase::Reporting;
                    Task::Report(
                        Progress {
                            downloaded: self.downloaded,
                            total: self.total,
                            session_bytes: self.downloaded - self.already,
                            remaining: self.total.saturating_sub(self.downloaded),
                        },
                    )
                } else {
                    self.phase = Phase::CancelFlag;
                    Task::CheckCancel
                }
            },
            Event::Reported => {
                self.phase = Phase::CancelFlag;
                Task::CheckCancel
            },
            Event::Flushed(done) => match done {
                Ok(_) => {
                    if self.stale {
                        self.phase = Phase::Emptying { chunk: None };
                        return Task::EmptyPart;
                    }
                    self.phase = Phase::Renaming;
                    Task::RenamePart
                },
                Err(words) => self.fail(DownloadError::File(words)),
            },
            Event::Renamed(ok) => {
                if !ok {
                    return self.fail(DownloadError::Rename);
                }
                if self.total > 0 {
                    self.phase = Phase::Measuring;
                    Task::MeasureTarget
                } else {
                    self.phase = Phase::Announcing;
                    Task::Announce
                }
            },
            Event::Measured(size) => match size {
                Ok(actual) => {
                    if actual != self.total {
                        self.phase = Phase::Removing { received: actual };
                        Task::RemoveTarget
                    } else {
                        self.phase = Phase::Announcing;
                        Task::Announce
                    }
                },
                Err(words) => self.fail(DownloadError::File(words)),
            },
            Event::Removed => {
                let received = match self.phase {
                    Phase::Removing { received } => received,
                    _ => 0,
                };
                let reported = self.total;
                self.fail(DownloadError::Incomplete { reported, received })
            },
            Event::Announced => {
                self.phase = Phase::Over;
                Task::Finish(Ok(()))
            },
        }
    }
}

/// The value of the `Range` header of a request from byte `from` on.
pub fn range_header(from: u64) -> (r: String)
    ensures
        r@ == "bytes="@ + decimal(from as nat) + "-"@,
{
    join2("bytes=", number(from).as_str()).concat("-")
}

// ── Laws ─────────────────────────────────────────────────────────────────────

/// The state in which a download begins.
pub open spec fn fresh(has_directory: bool) -> DownloadView {
    DownloadView {
        phase: if has_directory {
            Phase::Directory
        } else {
            Phase::Part
        },
        already: 0,
        total: 0,
        downloaded: 0,
        stale: false,
    }
}

/// The state after a run of events.
pub open spec fn state_after(v: DownloadView, events: Seq<Event>) -> DownloadView
    decreases events.len(),
{
    if events.len() == 0 {
        v
    } else {
        state_after(v, events.drop_last()).next(events.last()).0
    }
}

/// Every event of the run is waited for when it comes.
pub open spec fn in_order(v: DownloadView, events: Seq<Event>) -> bool
    decreases events.len(),
{
    events.len() > 0 ==> in_order(v, events.drop_last()) && expects(
        state_after(v, events.drop_last()),
        events.last(),
    )
}

/// How many bytes the chunks of a run hold.
pub open spec fn bytes_read(events: Seq<Event>) -> nat
    decreases events.len(),
{
    if events.len() == 0 {
        0
    } else {
        bytes_read(events.drop_last()) + match events.last() {
            Event::ChunkRead(Some(len)) => len as nat,
            _ => 0nat,
        }
    }
}

/// The bytes counted as on disk are those kept of an earlier session and those of
/// the chunks read, except a chunk that is being written or failed to be.
pub proof fn law_bytes_are_counted(has_directory: bool, events: Seq<Event>)
    requires
        in_order(fresh(has_directory), events),
    ensures
        ({
            let v = state_after(fresh(has_directory), events);
            &&& v.wf()
            &&& v.phase is Directory || v.phase is Part ==> bytes_read(events) == 0 && v.downloaded
                == 0 && v.total == 0
            &&& v.phase is Client || v.phase is Response || v.phase is Opening ==> bytes_read(events)
                == 0 && v.downloaded == v.already
            &&& v.phase matches Phase::Writing { len } ==> v.downloaded + len == v.already
                + bytes_read(events)
            &&& v.phase matches Phase::Emptying { chunk } ==> v.downloaded + (match chunk {
                Some(len) => len,
                None => 0,
            }) == v.already + bytes_read(events)
            &&& !(v.phase is Writing || v.phase is Emptying) && v.phase != Phase::Over
                ==> v.downloaded == v.already + bytes_read(events)
            &&& v.downloaded <= v.already + bytes_read(events)
        }),
    decreases events.len(),
{
    if events.len() > 0 {
        law_bytes_are_counted(has_directory, events.drop_last());
    }
}

/// A download is announced as complete only when the server did not say how long
/// the file is, or the file on disk has been measured and has that length.
pub proof fn law_announced_only_if_complete(has_directory: bool, events: Seq<Event>)
    requires
        in_order(fresh(has_directory), events),
    ensures
        ({
            let v = state_after(fresh(has_directory), events);
            v.phase == Phase::Announcing ==> events.len() > 0 && (v.total == 0 || events.last()
                == Event::Measured(Ok(v.total)))
        }),
{
    if events.len() > 0 {
        let u = state_after(fresh(has_directory), events.drop_last());
        assert(expects(u, events.last()));
    }
}

/// A download succeeds only after it was announced as complete, and nothing follows
/// its end.
pub proof fn law_success_is_announced(v: DownloadView, e: Event)
    requires
        expects(v, e),
    ensures
        v.phase != Phase::Over,
        v.next(e).1 == Task::Finish(Ok(())) ==> v.phase == Phase::Announcing,
        v.next(e).1 is Finish <==> v.next(e).0.phase == Phase::Over,
{
}

/// A file that does not have the reported length is removed, and the download fails
/// with both lengths.
pub proof fn law_truncated_file_is_removed(v: DownloadView, received: u64)
    requires
        v.phase == Phase::Measuring,
        received != v.total,
    ensures
        ({
            let (removing, task) = v.next(Event::Measured(Ok(received)));
            &&& task == Task::RemoveTarget
            &&& removing.next(Event::Removed).1 == Task::Finish(
                Err(DownloadError::Incomplete { reported: v.total, received }),
            )
        }),
{
}

/// A download that finds a partial file requests the rest from its end on, and
/// appends to it where the server sends the rest; one that finds none requests the
/// whole file.
pub proof fn law_download_resumes(v: DownloadView, size: Option<u64>, length: Option<u64>)
    requires
        v.phase == Phase::Part,
        size matches Some(n) ==> (length matches Some(l) ==> n + l <= u64::MAX),
    ensures
        ({
            let (v1, t1) = v.next(Event::PartSize(size));
            let (v2, t2) = v1.next(Event::ClientBuilt(Ok(())));
            let (v3, t3) = v2.next(Event::Responded(Some((PARTIAL_CONTENT, length))));
            let kept = match size {
                Some(n) => n,
                None => 0,
            };
            &&& t1 == Task::BuildClient
            &&& t2 == Task::Send {
                from: if kept > 0 {
                    Some(kept)
                } else {
                    None
                },
            }
            &&& t3 == Task::OpenPart { append: kept > 0 }
            &&& v3.downloaded == kept
            &&& length matches Some(l) ==> (l > 0 ==> v3.total == kept + l)
        }),
{
}

/// Where the server answers with the whole file, whatever was asked for, the download
/// begins anew: the file is expected to have the length that the server reports, and
/// what the partial file holds is dropped, though not before the user was found not to
/// have cancelled and the first chunk has come.
pub proof fn law_whole_file_starts_anew(
    v: DownloadView,
    status: u16,
    length: Option<u64>,
    len: u64,
)
    requires
        v.phase == Phase::Response,
        is_success_code(status),
        status != PARTIAL_CONTENT,
    ensures
        ({
            let (v1, t1) = v.next(Event::Responded(Some((status, length))));
            let (v2, t2) = v1.next(Event::Opened(true));
            let (v3, t3) = v2.next(Event::CancelFlag(false));
            let (v4, t4) = v3.next(Event::ChunkRead(Some(len)));
            let (v5, t5) = v4.next(Event::Emptied(true));
            &&& v1 == (DownloadView {
                phase: Phase::Opening,
                already: 0,
                downloaded: 0,
                total: match length {
                    Some(n) => n,
                    None => 0,
                },
                stale: true,
            })
            &&& t1 == Task::OpenPart { append: false }
            &&& v1.next(Event::Opened(false)).1 == Task::Finish(
                Err(DownloadError::Open { append: false }),
            )
            &&& t2 == Task::CheckCancel
            &&& t3 == Task::ReadChunk
            &&& t4 == Task::EmptyPart
            &&& t5 == Task::WriteChunk
            &&& v4.next(Event::Emptied(false)).1 == Task::Finish(
                Err(DownloadError::Open { append: false }),
            )
        }),
{
}

/// Once the user has cancelled, no further chunk is read.
pub proof fn law_cancel_ends_download(v: DownloadView)
    requires
        v.phase == Phase::CancelFlag,
    ensures
        v.next(Event::CancelFlag(true)).1 == Task::Finish(Err(DownloadError::Cancelled)),
        forall|u: DownloadView, e: Event|
            expects(u, e) && #[trigger] u.next(e).1 == Task::ReadChunk ==> e == Event::CancelFlag(
                false,
            ),
{
}

// ── Whole runs: what is asked for ────────────────────────────────────────────

/// Everything that a run asks for, from its beginning on.
pub open spec fn tasks(has_directory: bool, events: Seq<Event>) -> Seq<Task>
    decreases events.len(),
{
    if events.len() == 0 {
        seq![
            if has_directory {
                Task::CreateDirectory
            } else {
                Task::FindPart
            },
        ]
    } else {
        tasks(has_directory, events.drop_last()).push(
            state_after(fresh(has_directory), events.drop_last()).next(events.last()).1,
        )
    }
}

/// How often completion is announced.
pub open spec fn announcements(tasks: Seq<Task>) -> nat
    decreases tasks.len(),
{
    if tasks.len() == 0 {
        0
    } else {
        announcements(tasks.drop_last()) + if tasks.last() is Announce {
            1nat
        } else {
            0nat
        }
    }
}

/// Completion is announced at most once, after every report of progress; and a
/// download that is over has succeeded exactly when it was announced.
pub proof fn law_completion_is_announced_once(has_directory: bool, events: Seq<Event>)
    requires
        in_order(fresh(has_directory), events),
    ensures
        ({
            let v = state_after(fresh(has_directory), events);
            let asked = tasks(has_directory, events);
            &&& asked.len() == events.len() + 1
            &&& asked.last() is Finish <==> v.phase == Phase::Over
            &&& announcements(asked) == if v.phase == Phase::Announcing || asked.last()
                == Task::Finish(Ok(())) {
                1nat
            } else {
                0nat
            }
            &&& forall|i: int, j: int|
                0 <= i < j < asked.len() && #[trigger] asked[i] is Announce ==> !(
                #[trigger] asked[j] is Report)
        }),
    decreases events.len(),
{
    let asked = tasks(has_directory, events);
    if events.len() == 0 {
        assert(asked.drop_last() =~= Seq::<Task>::empty());
        assert(announcements(asked.drop_last()) == 0);
    } else {
        let before = tasks(has_directory, events.drop_last());
        law_completion_is_announced_once(has_directory, events.drop_last());
        assert(asked.drop_last() =~= before);
        lemma_announced_last(has_directory, events);
    }
}

/// Only the last thing asked for, or the last but one, is an announcement, and the
/// phase says which.
proof fn lemma_announced_last(has_directory: bool, events: Seq<Event>)
    requires
        in_order(fresh(has_directory), events),
    ensures
        tasks(has_directory, events).len() == events.len() + 1,
        ({
            let v = state_after(fresh(has_directory), events);
            let asked = tasks(has_directory, events);
            &&& asked.last() is Announce <==> v.phase == Phase::Announcing
            &&& forall|i: int|
                0 <= i < asked.len() && #[trigger] asked[i] is Announce ==> (i == asked.len() - 1
                    && v.phase == Phase::Announcing) || (i == asked.len() - 2 && asked.last()
                    == Task::Finish(Ok(())) && v.phase == Phase::Over)
        }),
    decreases events.len(),
{
    if events.len() > 0 {
        lemma_announced_last(has_directory, events.drop_last());
        let before = tasks(has_directory, events.drop_last());
        let asked = tasks(has_directory, events);
        assert forall|i: int| 0 <= i < asked.len() && #[trigger] asked[i] is Announce implies (i
            == asked.len() - 1 && state_after(fresh(has_directory), events).phase
            == Phase::Announcing) || (i == asked.len() - 2 && asked.last() == Task::Finish(Ok(()))
            && state_after(fresh(has_directory), events).phase == Phase::Over) by {
            if i < before.len() {
                assert(before[i] is Announce);
            }
        }
    }
}

/// Reports of one run keep their total and never fall back: each counts at least the
/// bytes that were kept and no more than there are in the end, only those of this
/// session as its own, and comes with a chunk that was written at least the interval
/// after the report before it.
pub proof fn law_reports_never_fall_back(has_directory: bool, events: Seq<Event>)
    requires
        in_order(fresh(has_directory), events),
    ensures
        ({
            let v = state_after(fresh(has_directory), events);
            let asked = tasks(has_directory, events);
            &&& asked.len() == events.len() + 1
            &&& forall|i: int|
                0 <= i < asked.len() ==> (#[trigger] asked[i] matches Task::Report(p) ==> {
                    &&& p.total == v.total
                    &&& v.already <= p.downloaded <= v.downloaded
                    &&& p.session_bytes == p.downloaded - v.already
                    &&& p.remaining == if p.total > p.downloaded {
                        p.total - p.downloaded
                    } else {
                        0
                    }
                    &&& i > 0
                    &&& events[i - 1] matches Event::Written { ok, since_report_ms } && ok
                        && since_report_ms >= REPORT_INTERVAL_MS
                })
            &&& forall|i: int, j: int|
                0 <= i <= j < asked.len() && #[trigger] asked[i] is Report
                    && #[trigger] asked[j] is Report ==> asked[i]->Report_0.downloaded
                    <= asked[j]->Report_0.downloaded
        }),
    decreases events.len(),
{
    if events.len() > 0 {
        let shorter = events.drop_last();
        let before = tasks(has_directory, shorter);
        let asked = tasks(has_directory, events);
        let u = state_after(fresh(has_directory), shorter);
        let v = state_after(fresh(has_directory), events);
        law_reports_never_fall_back(has_directory, shorter);
        law_bytes_are_counted(has_directory, shorter);
        lemma_no_report_before_opening(has_directory, shorter);
        assert forall|i: int| 0 <= i < asked.len() implies (
        #[trigger] asked[i] matches Task::Report(p) ==> {
            &&& p.total == v.total
            &&& v.already <= p.downloaded <= v.downloaded
            &&& p.session_bytes == p.downloaded - v.already
            &&& p.remaining == if p.total > p.downloaded {
                p.total - p.downloaded
            } else {
                0
            }
            &&& i > 0
            &&& events[i - 1] matches Event::Written { ok, since_report_ms } && ok
                && since_report_ms >= REPORT_INTERVAL_MS
        }) by {
            if i < before.len() {
                assert(asked[i] == before[i]);
                if asked[i] is Report {
                    assert(events[i - 1] == shorter[i - 1]);
                }
            }
        }
        assert forall|i: int, j: int|
            0 <= i <= j < asked.len() && #[trigger] asked[i] is Report
                && #[trigger] asked[j] is Report implies asked[i]->Report_0.downloaded
            <= asked[j]->Report_0.downloaded by {
            if j < before.len() {
                assert(asked[j] == before[j]);
                assert(asked[i] == before[i]);
            } else {
                assert(asked[j]->Report_0.downloaded == v.downloaded);
            }
        }
    }
}

/// From the response on, the total is what was kept of an earlier session and what
/// the server announced, or 0 where it announced nothing.
pub proof fn law_total_is_what_was_announced(
    has_directory: bool,
    events: Seq<Event>,
    k: int,
    status: u16,
    length: Option<u64>,
)
    requires
        in_order(fresh(has_directory), events),
        0 <= k < events.len(),
        events[k] == Event::Responded(Some((status, length))),
        is_success_code(status),
    ensures
        ({
            let v = state_after(fresh(has_directory), events);
            &&& !(v.phase is Directory || v.phase is Part || v.phase is Client
                || v.phase is Response)
            &&& v.total == v.total_with(length)
        }),
    decreases events.len(),
{
    if k < events.len() - 1 {
        law_total_is_what_was_announced(has_directory, events.drop_last(), k, status, length);
    }
}

/// The phase comes before the partial file is open.
spec fn before_open(phase: Phase) -> bool {
    phase is Directory || phase is Part || phase is Client || phase is Response || phase is Opening
}

proof fn lemma_no_report_before_opening(has_directory: bool, events: Seq<Event>)
    requires
        in_order(fresh(has_directory), events),
    ensures
        tasks(has_directory, events).len() == events.len() + 1,
        before_open(state_after(fresh(has_directory), events).phase) ==> forall|i: int|
            0 <= i < events.len() + 1 ==> !(#[trigger] tasks(has_directory, events)[i] is Report),
    decreases events.len(),
{
    if events.len() > 0 {
        let shorter = events.drop_last();
        lemma_no_report_before_opening(has_directory, shorter);
        if before_open(state_after(fresh(has_directory), events).phase) {
            assert(before_open(state_after(fresh(has_directory), shorter).phase));
            assert forall|i: int| 0 <= i < events.len() + 1 implies !(#[trigger] tasks(
                has_directory,
                events,
            )[i] is Report) by {
                if i < shorter.len() + 1 {
                    assert(!(tasks(has_directory, shorter)[i] is Report));
                }
            }
        }
    }
}

// ── Whole runs: what is on disk ──────────────────────────────────────────────

/// The files of a download, and what the server has yet to send.
#[verifier::ext_equal]
pub struct Disk {
    /// What the partial file holds, where there is one.
    pub part: Option<Seq<u8>>,
    /// What the target holds, where there is one.
    pub target: Option<Seq<u8>>,
    /// What is left of the response.
    pub body: Seq<u8>,
    /// The chunk that was read last.
    pub chunk: Seq<u8>,
    /// How much of a chunk gets into the file when writing it fails.
    pub torn: nat,
}

/// What a response with this status holds: the file from the byte on that was asked
/// for, or all of it.
pub open spec fn response_body(v: DownloadView, status: u16, file: Seq<u8>) -> Seq<u8> {
    file.skip(v.kept(status) as int)
}

/// What an event means for the files, while `file` is downloaded.
pub open spec fn disk_next(disk: Disk, v: DownloadView, e: Event, file: Seq<u8>) -> Disk {
    match e {
        Event::Responded(Some((status, _))) => if is_success_code(status) {
            Disk { body: response_body(v, status, file), ..disk }
        } else {
            disk
        },
        Event::Opened(ok) => if ok && disk.part is None {
            Disk { part: Some(Seq::empty()), ..disk }
        } else {
            disk
        },
        Event::Emptied(ok) => if ok {
            Disk { part: Some(Seq::empty()), ..disk }
        } else {
            disk
        },
        Event::ChunkRead(Some(len)) => Disk {
            chunk: disk.body.take(len as int),
            body: disk.body.skip(len as int),
            ..disk
        },
        Event::Written { ok, .. } => if ok {
            Disk { part: Some(disk.part->0 + disk.chunk), ..disk }
        } else {
            let reached = if disk.torn < disk.chunk.len() {
                disk.torn
            } else {
                disk.chunk.len()
            };
            Disk { part: Some(disk.part->0 + disk.chunk.take(reached as int)), ..disk }
        },
        Event::Renamed(ok) => if ok {
            Disk { part: None, target: disk.part, ..disk }
        } else {
            disk
        },
        Event::Removed => Disk { target: None, ..disk },
        _ => disk,
    }
}

/// The event tells the truth: about the files, and about a server that has `file`.
/// The server may break off early, and need not say how long its response is; it sends
/// the rest of the file only to one who has its beginning.
pub open spec fn truthful(disk: Disk, v: DownloadView, e: Event, file: Seq<u8>) -> bool {
    match e {
        Event::PartSize(Some(n)) => disk.part matches Some(part) && part.len() == n,
        Event::Responded(Some((status, length))) => is_success_code(status) ==> {
            &&& v.kept(status) > 0 ==> (disk.part matches Some(part) && part.is_prefix_of(file))
            &&& length matches Some(n) ==> n == response_body(v, status, file).len()
        },
        Event::ChunkRead(Some(len)) => len <= disk.body.len(),
        Event::Measured(Ok(n)) => disk.target matches Some(target) && target.len() == n,
        _ => true,
    }
}

/// The files after a run of events.
pub open spec fn disk_after(
    has_directory: bool,
    disk: Disk,
    events: Seq<Event>,
    file: Seq<u8>,
) -> Disk
    decreases events.len(),
{
    if events.len() == 0 {
        disk
    } else {
        disk_next(
            disk_after(has_directory, disk, events.drop_last(), file),
            state_after(fresh(has_directory), events.drop_last()),
            events.last(),
            file,
        )
    }
}

/// Every event of the run is waited for and tells the truth.
pub open spec fn truthful_run(
    has_directory: bool,
    disk: Disk,
    events: Seq<Event>,
    file: Seq<u8>,
) -> bool
    decreases events.len(),
{
    events.len() > 0 ==> {
        let v = state_after(fresh(has_directory), events.drop_last());
        &&& truthful_run(has_directory, disk, events.drop_last(), file)
        &&& expects(v, events.last())
        &&& truthful(
            disk_after(has_directory, disk, events.drop_last(), file),
            v,
            events.last(),
            file,
        )
    }
}

/// The partial file is as it was, or was created empty.
spec fn part_untouched(start: Disk, disk: Disk) -> bool {
    disk.part == start.part || (start.part is None && disk.part == Some(Seq::<u8>::empty()))
}

/// What is on disk in each phase.
spec fn disk_wf(disk: Disk, v: DownloadView, start: Disk, file: Seq<u8>) -> bool {
    let n = v.downloaded as int;
    &&& v.wf()
    &&& !(v.phase is Directory || v.phase is Part || v.phase is Client || v.phase is Response)
        ==> (v.total > 0 && v.phase != Phase::Over ==> v.total == file.len())
    &&& match v.phase {
        Phase::Directory | Phase::Part => disk.part == start.part && disk.target == start.target,
        Phase::Client | Phase::Response => {
            &&& disk.part == start.part && disk.target == start.target
            &&& v.downloaded == v.already
            &&& v.already > 0 ==> disk.part is Some && disk.part->0.len() == v.already
        },
        Phase::Opening => {
            &&& v.downloaded == v.already && n <= file.len()
            &&& v.stale == (v.already == 0)
            &&& !v.stale ==> disk.part == Some(file.take(n))
            &&& disk.body == file.skip(n)
        },
        Phase::Emptying { chunk } => {
            &&& v.stale && n == 0
            &&& match chunk {
                Some(len) => {
                    &&& len <= file.len()
                    &&& disk.chunk == file.take(len as int)
                    &&& disk.body == file.skip(len as int)
                },
                None => disk.body == file,
            }
        },
        Phase::Writing { len } => {
            &&& !v.stale
            &&& n + len <= file.len()
            &&& disk.part == Some(file.take(n))
            &&& disk.chunk == file.subrange(n, n + len)
            &&& disk.body == file.skip(n + len)
        },
        Phase::Measuring | Phase::Announcing => {
            &&& n <= file.len()
            &&& disk.target == Some(file.take(n))
            &&& disk.body == file.skip(n)
            &&& v.phase == Phase::Announcing && v.total > 0 ==> n == file.len()
        },
        Phase::Removing { .. } | Phase::Over => true,
        _ => {
            &&& n <= file.len() && disk.body == file.skip(n)
            &&& v.phase == Phase::Renaming || v.phase == Phase::Reporting ==> !v.stale
            &&& if v.stale {
                n == 0
            } else {
                disk.part == Some(file.take(n))
            }
        },
    }
}

proof fn lemma_disk_step(disk: Disk, v: DownloadView, e: Event, start: Disk, file: Seq<u8>)
    requires
        disk_wf(disk, v, start, file),
        expects(v, e),
        truthful(disk, v, e, file),
    ensures
        disk_wf(disk_next(disk, v, e, file), v.next(e).0, start, file),
{
    let n = v.downloaded as int;
    assert(file.take(0) =~= Seq::<u8>::empty());
    assert(file.skip(0) =~= file);
    match e {
        Event::Responded(Some((status, length))) => {
            if is_success_code(status) {
                let kept = v.kept(status) as int;
                if kept > 0 {
                    let part = disk.part->0;
                    assert(part =~= file.take(part.len() as int));
                }
            }
        },
        Event::ChunkRead(Some(len)) => {
            assert(disk.body.take(len as int) =~= file.subrange(n, n + len));
            assert(disk.body.skip(len as int) =~= file.skip(n + len));
            assert(file.subrange(0, len as int) =~= file.take(len as int));
        },
        Event::Emptied(ok) => {
            if let Some(len) = v.phase->chunk {
                assert(file.subrange(0, len as int) =~= file.take(len as int));
            }
        },
        Event::Written { ok, .. } => {
            let len = v.phase->len as int;
            assert(file.take(n) + file.subrange(n, n + len) =~= file.take(n + len));
        },
        _ => {},
    }
}

proof fn lemma_disk_run(has_directory: bool, disk: Disk, events: Seq<Event>, file: Seq<u8>)
    requires
        truthful_run(has_directory, disk, events, file),
    ensures
        in_order(fresh(has_directory), events),
        disk_wf(
            disk_after(has_directory, disk, events, file),
            state_after(fresh(has_directory), events),
            disk,
            file,
        ),
    decreases events.len(),
{
    if events.len() > 0 {
        lemma_disk_run(has_directory, disk, events.drop_last(), file);
        lemma_disk_step(
            disk_after(has_directory, disk, events.drop_last(), file),
            state_after(fresh(has_directory), events.drop_last()),
            events.last(),
            disk,
            file,
        );
    }
}

/// A download that succeeds leaves the file under the target's name, and never a
/// mixture of it with something else, whatever was in the partial file before: all of
/// it where the server reported its length or sent all of it, and else its beginning.
pub proof fn law_target_is_the_file(
    has_directory: bool,
    disk: Disk,
    events: Seq<Event>,
    file: Seq<u8>,
)
    requires
        truthful_run(has_directory, disk, events, file),
        tasks(has_directory, events).last() == Task::Finish(Ok(())),
    ensures
        ({
            let v = state_after(fresh(has_directory), events);
            let end = disk_after(has_directory, disk, events, file);
            &&& end.target is Some
            &&& end.target->0.is_prefix_of(file)
            &&& v.total > 0 || end.body.len() == 0 ==> end.target == Some(file)
        }),
{
    lemma_disk_run(has_directory, disk, events, file);
    if events.len() > 0 {
        lemma_disk_run(has_directory, disk, events.drop_last(), file);
        let v = state_after(fresh(has_directory), events.drop_last());
        let end = disk_after(has_directory, disk, events, file);
        law_success_is_announced(v, events.last());
        assert(v.phase == Phase::Announcing);
        let n = v.downloaded as int;
        if n == file.len() {
            assert(file.take(n) =~= file);
        }
    }
}

/// A response without success ends the download with its status, and the files are as
/// they were before.
pub proof fn law_refusal_leaves_the_files(
    has_directory: bool,
    disk: Disk,
    events: Seq<Event>,
    file: Seq<u8>,
    status: u16,
    length: Option<u64>,
)
    requires
        truthful_run(
            has_directory,
            disk,
            events.push(Event::Responded(Some((status, length)))),
            file,
        ),
        !is_success_code(status),
    ensures
        ({
            let all = events.push(Event::Responded(Some((status, length))));
            let end = disk_after(has_directory, disk, all, file);
            &&& tasks(has_directory, all).last() == Task::Finish(
                Err(DownloadError::Status(status)),
            )
            &&& end.part == disk.part
            &&& end.target == disk.target
        }),
{
    let all = events.push(Event::Responded(Some((status, length))));
    assert(all.drop_last() =~= events);
    lemma_disk_run(has_directory, disk, events, file);
}

/// The last thing asked for is what the phase waits for, as far as it is a chunk to be
/// written or the part to be renamed.
proof fn lemma_last_task(has_directory: bool, events: Seq<Event>)
    requires
        in_order(fresh(has_directory), events),
    ensures
        tasks(has_directory, events).len() == events.len() + 1,
        state_after(fresh(has_directory), events).phase is Writing <==> tasks(
            has_directory,
            events,
        ).last() is WriteChunk,
        state_after(fresh(has_directory), events).phase is Renaming <==> tasks(
            has_directory,
            events,
        ).last() is RenamePart,
    decreases events.len(),
{
    if events.len() > 0 {
        lemma_last_task(has_directory, events.drop_last());
    }
}

/// Nothing has been asked for that writes to the files.
spec fn nothing_written(asked: Seq<Task>) -> bool {
    forall|i: int|
        0 <= i < asked.len() ==> !(#[trigger] asked[i] is WriteChunk || asked[i] is RenamePart)
}

proof fn lemma_nothing_written(has_directory: bool, disk: Disk, events: Seq<Event>, file: Seq<u8>)
    requires
        truthful_run(has_directory, disk, events, file),
        nothing_written(tasks(has_directory, events)),
    ensures
        disk_after(has_directory, disk, events, file).target == disk.target,
        part_untouched(disk, disk_after(has_directory, disk, events, file)),
        !(state_after(fresh(has_directory), events).phase is Measuring || state_after(
            fresh(has_directory),
            events,
        ).phase is Removing || state_after(fresh(has_directory), events).phase is Announcing),
    decreases events.len(),
{
    if events.len() > 0 {
        let shorter = events.drop_last();
        let asked = tasks(has_directory, events);
        let before = tasks(has_directory, shorter);
        lemma_disk_run(has_directory, disk, shorter, file);
        lemma_last_task(has_directory, shorter);
        assert forall|i: int| 0 <= i < before.len() implies !(#[trigger] before[i] is WriteChunk
            || before[i] is RenamePart) by {
            assert(before[i] == asked[i]);
        }
        lemma_nothing_written(has_directory, disk, shorter, file);
        assert(!(before[before.len() - 1] is WriteChunk || before[before.len() - 1] is RenamePart));
        assert(!(asked[asked.len() - 1] is WriteChunk || asked[asked.len() - 1] is RenamePart));
    }
}

/// A download that fails before a chunk was to be written or the part to be renamed,
/// such as one that is cancelled at once, leaves the files as they were, except that an
/// empty partial file may have come to be: a later download resumes where this one
/// would have.
pub proof fn law_nothing_written_keeps_the_files(
    has_directory: bool,
    disk: Disk,
    events: Seq<Event>,
    file: Seq<u8>,
)
    requires
        truthful_run(has_directory, disk, events, file),
        tasks(has_directory, events).last() matches Task::Finish(Err(_)),
        forall|i: int|
            0 <= i < tasks(has_directory, events).len() ==> !(#[trigger] tasks(
                has_directory,
                events,
            )[i] is WriteChunk || tasks(has_directory, events)[i] is RenamePart),
    ensures
        ({
            let end = disk_after(has_directory, disk, events, file);
            &&& end.target == disk.target
            &&& end.part == disk.part || (disk.part is None && end.part == Some(
                Seq::<u8>::empty(),
            ))
        }),
{
    lemma_nothing_written(has_directory, disk, events, file);
}

/// The partial file has been renamed.
pub open spec fn renamed(events: Seq<Event>) -> bool {
    exists|i: int| 0 <= i < events.len() && #[trigger] events[i] == Event::Renamed(true)
}

/// A chunk was to be written.
pub open spec fn chunk_asked(asked: Seq<Task>) -> bool {
    exists|i: int| 0 <= i < asked.len() && #[trigger] asked[i] is WriteChunk
}

/// Before the part is renamed: the target is as it was and, once a chunk was to be
/// written, the part holds a beginning of the file.
spec fn part_grows(disk: Disk, v: DownloadView, start: Disk, file: Seq<u8>, asked: bool) -> bool {
    &&& disk.target == start.target
    &&& !(v.phase is Measuring || v.phase is Removing || v.phase is Announcing)
    &&& v.phase is Writing ==> asked
    &&& asked ==> {
        &&& disk.part is Some
        &&& disk.part->0.is_prefix_of(file)
        &&& !v.stale
        &&& !before_open(v.phase)
    }
}

proof fn lemma_part_grows(
    disk: Disk,
    v: DownloadView,
    e: Event,
    start: Disk,
    file: Seq<u8>,
    asked: bool,
)
    requires
        disk_wf(disk, v, start, file),
        part_grows(disk, v, start, file, asked),
        expects(v, e),
        truthful(disk, v, e, file),
        e != Event::Renamed(true),
    ensures
        part_grows(
            disk_next(disk, v, e, file),
            v.next(e).0,
            start,
            file,
            asked || v.next(e).1 is WriteChunk,
        ),
{
    lemma_disk_step(disk, v, e, start, file);
    let end = disk_next(disk, v, e, file);
    if let Event::Written { .. } = e {
        let part = end.part->0;
        assert(part =~= file.take(part.len() as int));
    }
    if v.next(e).1 is WriteChunk {
        assert(end.part->0 =~= file.take(v.next(e).0.downloaded as int));
    }
}

proof fn lemma_part_is_a_beginning(
    has_directory: bool,
    disk: Disk,
    events: Seq<Event>,
    file: Seq<u8>,
)
    requires
        truthful_run(has_directory, disk, events, file),
        !renamed(events),
    ensures
        part_grows(
            disk_after(has_directory, disk, events, file),
            state_after(fresh(has_directory), events),
            disk,
            file,
            chunk_asked(tasks(has_directory, events)),
        ),
    decreases events.len(),
{
    if events.len() > 0 {
        let shorter = events.drop_last();
        let asked = tasks(has_directory, events);
        let before = tasks(has_directory, shorter);
        assert(!renamed(shorter)) by {
            assert forall|i: int| 0 <= i < shorter.len() implies #[trigger] shorter[i]
                != Event::Renamed(true) by {
                assert(events[i] != Event::Renamed(true));
            }
        }
        assert(events[events.len() - 1] != Event::Renamed(true));
        lemma_part_is_a_beginning(has_directory, disk, shorter, file);
        lemma_disk_run(has_directory, disk, shorter, file);
        lemma_part_grows(
            disk_after(has_directory, disk, shorter, file),
            state_after(fresh(has_directory), shorter),
            events.last(),
            disk,
            file,
            chunk_asked(before),
        );
        assert(chunk_asked(asked) == (chunk_asked(before) || asked.last() is WriteChunk)) by {
            assert(asked == before.push(asked.last()));
            if chunk_asked(before) {
                let i = choose|i: int| 0 <= i < before.len() && #[trigger] before[i] is WriteChunk;
                assert(asked[i] is WriteChunk);
            }
            if asked.last() is WriteChunk {
                assert(asked[asked.len() - 1] is WriteChunk);
            }
            if chunk_asked(asked) {
                let i = choose|i: int| 0 <= i < asked.len() && #[trigger] asked[i] is WriteChunk;
                if i < before.len() {
                    assert(before[i] is WriteChunk);
                }
            }
        }
    }
}

/// A download that fails after a chunk was to be written, but before the part is
/// renamed, leaves the target as it was and in the partial file a beginning of the
/// file, so that a later download can go on from there.
pub proof fn law_failed_download_can_be_resumed(
    has_directory: bool,
    disk: Disk,
    events: Seq<Event>,
    file: Seq<u8>,
)
    requires
        truthful_run(has_directory, disk, events, file),
        tasks(has_directory, events).last() matches Task::Finish(Err(_)),
        chunk_asked(tasks(has_directory, events)),
        !renamed(events),
    ensures
        ({
            let end = disk_after(has_directory, disk, events, file);
            &&& end.target == disk.target
            &&& end.part matches Some(part) && part.is_prefix_of(file)
        }),
{
    lemma_part_is_a_beginning(has_directory, disk, events, file);
}

// ── Whole runs: what a download is for ───────────────────────────────────────

/// The files of a download and its connection, as they answer to what is asked for.
#[verifier::ext_equal]
pub struct Site {
    /// What the partial file holds, where there is one.
    pub part: Option<Seq<u8>>,
    /// What the target holds, where there is one.
    pub target: Option<Seq<u8>>,
    /// Whether what is written goes to the end of the partial file, wherever that is.
    pub append: bool,
    /// Where what is written goes otherwise.
    pub position: nat,
    /// Whether the partial file has been flushed and closed.
    pub closed: bool,
    /// What is left of the response.
    pub body: Seq<u8>,
    /// The chunk that was read last.
    pub chunk: Seq<u8>,
}

/// What a server that has `file` answers with: the rest where it sends part of it, and
/// else all of it.
pub open spec fn answered(from: Option<u64>, status: u16, file: Seq<u8>) -> Seq<u8> {
    match from {
        Some(n) => if status == 206 {
            file.skip(n as int)
        } else {
            file
        },
        None => file,
    }
}

/// What a file holds once `chunk` was written into it at a place.
pub open spec fn overwritten(held: Seq<u8>, at: int, chunk: Seq<u8>) -> Seq<u8> {
    held.take(at) + chunk + if at + chunk.len() < held.len() {
        held.skip(at + chunk.len())
    } else {
        Seq::empty()
    }
}

/// The event is the answer to what was asked for, and nothing goes wrong: every task is
/// done, the user does not cancel, and the server sends all of its response. What it
/// sends is `file` or, to one whose partial file holds the beginning, the rest of it.
pub open spec fn goes_well(site: Site, task: Task, e: Event, file: Seq<u8>) -> bool {
    match (task, e) {
        (Task::CreateDirectory, Event::DirectoryReady(ok)) => ok,
        (Task::FindPart, Event::PartSize(size)) => match size {
            Some(n) => site.part is Some && site.part->0.len() == n,
            None => site.part is None,
        },
        (Task::BuildClient, Event::ClientBuilt(built)) => built is Ok,
        (Task::Send { from }, Event::Responded(reply)) => match reply {
            Some((status, length)) => {
                &&& 200 <= status <= 299
                &&& status == 206 ==> {
                    &&& from is Some
                    &&& from->0 <= file.len()
                    &&& site.part is Some
                    &&& site.part->0.is_prefix_of(file)
                }
                &&& length is Some ==> length->0 == answered(from, status, file).len()
            },
            None => false,
        },
        (Task::OpenPart { .. }, Event::Opened(ok)) => ok,
        (Task::CheckCancel, Event::CancelFlag(cancelled)) => !cancelled,
        (Task::ReadChunk, Event::ChunkRead(chunk)) => match chunk {
            Some(len) => 0 < len <= site.body.len(),
            None => site.body.len() == 0,
        },
        (Task::EmptyPart, Event::Emptied(ok)) => ok,
        (Task::WriteChunk, Event::Written { ok, .. }) => ok,
        (Task::Report(_), Event::Reported) => true,
        (Task::Flush, Event::Flushed(done)) => done is Ok,
        (Task::RenamePart, Event::Renamed(ok)) => ok,
        (Task::MeasureTarget, Event::Measured(size)) => size is Ok && site.target is Some
            && site.target->0.len() == size->Ok_0,
        (Task::Announce, Event::Announced) => true,
        _ => false,
    }
}

/// What a task that goes well does to the files and the connection.
pub open spec fn site_next(site: Site, task: Task, e: Event, file: Seq<u8>) -> Site {
    match (task, e) {
        (Task::Send { from }, Event::Responded(Some((status, _)))) => Site {
            body: answered(from, status, file),
            ..site
        },
        (Task::OpenPart { append }, _) => Site {
            part: match site.part {
                Some(held) => Some(held),
                None => Some(Seq::empty()),
            },
            append,
            position: 0,
            closed: false,
            ..site
        },
        (Task::ReadChunk, Event::ChunkRead(Some(len))) => Site {
            chunk: site.body.take(len as int),
            body: site.body.skip(len as int),
            ..site
        },
        (Task::EmptyPart, _) => Site { part: Some(Seq::empty()), ..site },
        (Task::WriteChunk, _) => {
            let held = site.part->0;
            let at = if site.append {
                held.len()
            } else {
                site.position
            };
            Site {
                part: Some(overwritten(held, at as int, site.chunk)),
                position: at + site.chunk.len(),
                ..site
            }
        },
        (Task::Flush, _) => Site { closed: true, ..site },
        (Task::RenamePart, _) => Site { part: None, target: site.part, ..site },
        (Task::RemoveTarget, _) => Site { target: None, ..site },
        _ => site,
    }
}

/// The download, what it asks for, and the files and the connection, after a run of
/// events.
pub open spec fn play(has_directory: bool, site: Site, events: Seq<Event>, file: Seq<u8>) -> (
    DownloadView,
    Task,
    Site,
)
    decreases events.len(),
{
    if events.len() == 0 {
        (fresh(has_directory), tasks(has_directory, events)[0], site)
    } else {
        let (v, task, at) = play(has_directory, site, events.drop_last(), file);
        let (next, then) = v.next(events.last());
        (next, then, site_next(at, task, events.last(), file))
    }
}

/// Nothing goes wrong in the whole run.
pub open spec fn all_goes_well(
    has_directory: bool,
    site: Site,
    events: Seq<Event>,
    file: Seq<u8>,
) -> bool
    decreases events.len(),
{
    events.len() > 0 ==> {
        let (v, task, at) = play(has_directory, site, events.drop_last(), file);
        &&& all_goes_well(has_directory, site, events.drop_last(), file)
        &&& goes_well(at, task, events.last(), file)
    }
}

/// How many more answers a download of `file` takes at most.
pub open spec fn answers_left(task: Task, site: Site, file: Seq<u8>) -> nat {
    match task {
        Task::CreateDirectory => 8 * file.len() + 25,
        Task::FindPart => 8 * file.len() + 24,
        Task::BuildClient => 8 * file.len() + 23,
        Task::Send { .. } => 8 * file.len() + 22,
        Task::OpenPart { .. } => 8 * site.body.len() + 21,
        Task::EmptyPart => if site.closed {
            8
        } else {
            8 * site.body.len() + 16
        },
        Task::WriteChunk => 8 * site.body.len() + 15,
        Task::Report(_) => 8 * site.body.len() + 14,
        Task::CheckCancel => 8 * site.body.len() + 12,
        Task::ReadChunk => 8 * site.body.len() + 11,
        Task::Flush => 9,
        Task::RenamePart => 7,
        Task::MeasureTarget => 6,
        Task::Announce => 5,
        _ => 0,
    }
}

/// How the download stands to the files while all goes well.
spec fn on_course(v: DownloadView, task: Task, site: Site, file: Seq<u8>) -> bool {
    let n = v.downloaded as int;
    let found = match site.part {
        Some(held) => held.len(),
        None => 0,
    };
    let sized = v.total == 0 || v.total == file.len();
    let open = {
        &&& sized && site.part is Some && !site.closed
        &&& site.append == (v.already > 0)
        &&& if v.stale {
            n == 0 && !site.append && site.position == 0
        } else {
            n <= file.len() && site.part == Some(file.take(n)) && (site.append || site.position
                == n)
        }
    };
    &&& v.wf()
    &&& match task {
        Task::CreateDirectory => v.phase == Phase::Directory,
        Task::FindPart => v.phase == Phase::Part,
        Task::BuildClient => v.phase == Phase::Client && v.downloaded == v.already && v.already
            == found,
        Task::Send { from } => {
            &&& v.phase == Phase::Response && v.downloaded == v.already && v.already == found
            &&& from == if v.already > 0 {
                Some(v.already)
            } else {
                None
            }
        },
        Task::OpenPart { append } => {
            &&& v.phase == Phase::Opening && sized && v.downloaded == v.already
            &&& v.stale == (v.already == 0) && append == !v.stale
            &&& n <= file.len() && site.body == file.skip(n)
            &&& append ==> site.part == Some(file.take(n))
        },
        Task::CheckCancel => v.phase == Phase::CancelFlag && open && site.body == file.skip(n),
        Task::ReadChunk => v.phase == Phase::Chunk && open && site.body == file.skip(n),
        Task::Report(_) => v.phase == Phase::Reporting && open && site.body == file.skip(n),
        Task::EmptyPart => match v.phase {
            Phase::Emptying { chunk } => match chunk {
                Some(len) => {
                    &&& open && v.stale && len <= file.len()
                    &&& site.chunk == file.subrange(0, len as int)
                    &&& site.body == file.skip(len as int)
                },
                None => v.stale && n == 0 && sized && site.closed && file.len() == 0,
            },
            _ => false,
        },
        Task::WriteChunk => match v.phase {
            Phase::Writing { len } => {
                &&& open && !v.stale && n + len <= file.len()
                &&& site.chunk == file.subrange(n, n + len)
                &&& site.body == file.skip(n + len)
            },
            _ => false,
        },
        Task::Flush => v.phase == Phase::Flushing && open && n == file.len(),
        Task::RenamePart => v.phase == Phase::Renaming && sized && !v.stale && site.part == Some(
            file,
        ),
        Task::MeasureTarget => v.phase == Phase::Measuring && v.total == file.len() && site.target
            == Some(file) && site.part is None,
        Task::Announce => v.phase == Phase::Announcing && site.target == Some(file)
            && site.part is None,
        Task::Finish(result) => v.phase == Phase::Over && result is Ok && site.target == Some(file)
            && site.part is None,
        Task::RemoveTarget => false,
    }
}

#[verifier::rlimit(40)]
proof fn lemma_stays_on_course(v: DownloadView, task: Task, site: Site, e: Event, file: Seq<u8>)
    requires
        on_course(v, task, site, file),
        goes_well(site, task, e, file),
        file.len() <= u64::MAX,
    ensures
        expects(v, e),
        on_course(v.next(e).0, v.next(e).1, site_next(site, task, e, file), file),
        answers_left(v.next(e).1, site_next(site, task, e, file), file) < answers_left(
            task,
            site,
            file,
        ),
{
    let n = v.downloaded as int;
    let after = site_next(site, task, e, file);
    assert(file.take(0) =~= Seq::<u8>::empty());
    assert(file.skip(0) =~= file);
    assert(file.take(file.len() as int) =~= file);
    match task {
        Task::Send { from } => {
            if let Event::Responded(Some((status, length))) = e {
                if status == 206 {
                    let held = site.part->0;
                    assert(held =~= file.take(held.len() as int));
                }
            }
        },
        Task::ReadChunk => {
            if let Event::ChunkRead(Some(len)) = e {
                assert(site.body.take(len as int) =~= file.subrange(n, n + len));
                assert(site.body.skip(len as int) =~= file.skip(n + len));
            }
        },
        Task::WriteChunk => {
            let held = site.part->0;
            let len = v.phase->len as int;
            assert(overwritten(held, n, site.chunk) =~= file.take(n + len));
        },
        _ => {},
    }
}

proof fn lemma_play(has_directory: bool, site: Site, events: Seq<Event>, file: Seq<u8>)
    requires
        all_goes_well(has_directory, site, events, file),
        file.len() <= u64::MAX,
    ensures
        ({
            let (v, task, at) = play(has_directory, site, events, file);
            &&& on_course(v, task, at, file)
            &&& v == state_after(fresh(has_directory), events)
            &&& task == tasks(has_directory, events).last()
            &&& tasks(has_directory, events).len() == events.len() + 1
            &&& in_order(fresh(has_directory), events)
            &&& events.len() + answers_left(task, at, file) <= 8 * file.len() + 25
        }),
    decreases events.len(),
{
    if events.len() > 0 {
        lemma_play(has_directory, site, events.drop_last(), file);
        let (v, task, at) = play(has_directory, site, events.drop_last(), file);
        lemma_stays_on_course(v, task, at, events.last(), file);
    }
}

/// A download in which nothing goes wrong succeeds, whatever an earlier one left: it
/// waits for each of the answers, never removes the file and never fails; it is over
/// after a number of answers that the size of the file bounds, and then the target is
/// the file, all of it, and no partial file is left.
pub proof fn law_faultless_download_succeeds(
    has_directory: bool,
    site: Site,
    events: Seq<Event>,
    file: Seq<u8>,
)
    requires
        all_goes_well(has_directory, site, events, file),
        file.len() <= u64::MAX,
    ensures
        in_order(fresh(has_directory), events),
        events.len() <= 8 * file.len() + 25,
        ({
            let asked = tasks(has_directory, events);
            let (v, task, end) = play(has_directory, site, events, file);
            &&& task == asked.last()
            &&& !(task is RemoveTarget)
            &&& task matches Task::Finish(result) ==> {
                &&& result is Ok
                &&& end.target == Some(file)
                &&& end.part is None
            }
            &&& forall|e: Event|
                #[trigger] goes_well(end, task, e, file) ==> expects(v, e) && answers_left(
                    v.next(e).1,
                    site_next(end, task, e, file),
                    file,
                ) < answers_left(task, end, file)
        }),
{
    lemma_play(has_directory, site, events, file);
    let (v, task, end) = play(has_directory, site, events, file);
    assert forall|e: Event| #[trigger] goes_well(end, task, e, file) implies expects(v, e)
        && answers_left(v.next(e).1, site_next(end, task, e, file), file) < answers_left(
        task,
        end,
        file,
    ) by {
        lemma_stays_on_course(v, task, end, e, file);
    }
}

/// The size on disk alone decides whether a downloaded file is kept: it is announced
/// where it is the size that was reported, and removed where it is not, whatever an
/// earlier session left.
pub proof fn law_measured_size_decides(v: DownloadView, size: u64)
    requires
        v.phase == Phase::Measuring,
    ensures
        size == v.total <==> v.next(Event::Measured(Ok(size))).1 is Announce,
        size != v.total <==> v.next(Event::Measured(Ok(size))).1 is RemoveTarget,
{
}

/// A chunk that was written counts with all its bytes, and progress is reported exactly
/// when the last report is two hundred milliseconds or more ago.
pub proof fn law_reports_are_due(v: DownloadView, len: u64, since_report_ms: u64)
    requires
        v.wf(),
        v.phase == (Phase::Writing { len }),
    ensures
        ({
            let (then, task) = v.next(Event::Written { ok: true, since_report_ms });
            &&& then.downloaded == v.downloaded + len
            &&& then.already == v.already && then.total == v.total
            &&& if since_report_ms >= 200 {
                task matches Task::Report(p) && p.downloaded == v.downloaded + len && p.total
                    == v.total && p.session_bytes == v.downloaded + len - v.already && (if v.total
                    > v.downloaded + len {
                    p.remaining + p.downloaded == p.total
                } else {
                    p.remaining == 0
                })
            } else {
                task is CheckCancel
            }
        }),
{
}

/// A download fails exactly when something went wrong, and says what it was.
pub proof fn law_failure_says_what_went_wrong(v: DownloadView, e: Event)
    requires
        expects(v, e),
    ensures
        match v.next(e).1 {
            Task::Finish(Err(error)) => match error {
                DownloadError::Directory => e == Event::DirectoryReady(false),
                DownloadError::Client(words) => e == Event::ClientBuilt(Err(words)),
                DownloadError::Request => e == Event::Responded(None),
                DownloadError::Status(status) => !(200 <= status <= 299) && (e
                    matches Event::Responded(Some(reply)) && reply.0 == status),
                DownloadError::Open { .. } => e == Event::Opened(false) || e == Event::Emptied(
                    false,
                ),
                DownloadError::Cancelled => e == Event::CancelFlag(true),
                DownloadError::Read => e == Event::ReadFailed,
                DownloadError::Write => e matches Event::Written { ok, .. } && !ok,
                DownloadError::File(words) => e == Event::Flushed(Err(words)) || e
                    == Event::Measured(Err(words)),
                DownloadError::Rename => e == Event::Renamed(false),
                DownloadError::Incomplete { reported, received } => e == Event::Removed
                    && reported == v.total && v.phase == (Phase::Removing { received }),
            },
            _ => match e {
                Event::DirectoryReady(ok) => ok,
                Event::ClientBuilt(built) => built is Ok,
                Event::Responded(reply) => reply matches Some(r) && 200 <= r.0 <= 299,
                Event::Opened(ok) => ok,
                Event::CancelFlag(cancelled) => !cancelled,
                Event::ReadFailed => false,
                Event::Emptied(ok) => ok,
                Event::Written { ok, .. } => ok,
                Event::Flushed(done) => done is Ok,
                Event::Renamed(ok) => ok,
                Event::Measured(size) => size is Ok,
                Event::Removed => false,
                _ => true,
            },
        },
{
}

/// The walk finds at most one directory: the nearest of the first four that has the
/// model, and one exactly when one of them has it.
pub proof fn law_walk_finds_the_nearest(ancestors: Seq<bool>, j: int, k: int)
    ensures
        first_on_walk(ancestors, j) && first_on_walk(ancestors, k) ==> j == k,
        first_on_walk(ancestors, k) ==> 0 <= k < 4 && ancestors[k],
        0 <= j < 4 && j < ancestors.len() && ancestors[j] ==> exists|i: int|
            0 <= i <= j && #[trigger] first_on_walk(ancestors, i),
{
    if 0 <= j < 4 && j < ancestors.len() && ancestors[j] {
        if ancestors[0] {
            assert(first_on_walk(ancestors, 0));
        } else if j >= 1 && ancestors[1] {
            assert(first_on_walk(ancestors, 1));
        } else if j >= 2 && ancestors[2] {
            assert(first_on_walk(ancestors, 2));
        } else {
            assert(first_on_walk(ancestors, 3));
        }
    }
}

/// A path that was asked for counts only where the file is known to be there.
pub proof fn law_custom_path_has_to_exist(exists: bool, below_cwd: Option<bool>)
    ensures
        !CustomPath::Unset.is_there(),
        (CustomPath::Absolute { exists }).is_there() == exists,
        (CustomPath::Relative { below_cwd }).is_there() <==> below_cwd == Some(true),
{
}

/// The message about an incomplete download tells how many bytes were reported and, last,
/// how many were received; the one about a status ends with the status; and what the
/// system said is passed on as it is.
pub proof fn law_messages_tell_what_was_seen(
    reported: u64,
    received: u64,
    status: u16,
    words: String,
)
    ensures
        ({
            let text = (DownloadError::Incomplete { reported, received }).text();
            &&& crate::text::contains_text(text, "server reported "@ + decimal(reported as nat))
            &&& ("received "@ + decimal(received as nat)).is_suffix_of(text)
        }),
        status_text(status).is_suffix_of(DownloadError::Status(status).text()),
        DownloadError::Client(words).text() == words@,
        DownloadError::File(words).text() == words@,
{
    reveal_strlit("download incomplete: server reported ");
    reveal_strlit("download incomplete: ");
    reveal_strlit("server reported ");
    reveal_strlit(" bytes but received ");
    reveal_strlit(" bytes but ");
    reveal_strlit("received ");
    let text = (DownloadError::Incomplete { reported, received }).text();
    assert("download incomplete: server reported "@ =~= "download incomplete: "@
        + "server reported "@);
    assert(" bytes but received "@ =~= " bytes but "@ + "received "@);
    let first = "server reported "@ + decimal(reported as nat);
    let last = "received "@ + decimal(received as nat);
    assert(text =~= "download incomplete: "@ + first + (" bytes but "@ + last));
    crate::text::law_contains_what_it_is_made_of(
        "download incomplete: "@,
        first,
        " bytes but "@ + last,
    );
    assert(text.subrange(text.len() - last.len(), text.len() as int) =~= last);
    let line = status_text(status);
    let refused = DownloadError::Status(status).text();
    assert(refused.subrange(refused.len() - line.len(), refused.len() as int) =~= line);
}

/// Whatever comes of a task is awaited, and nothing else is, as long as a response has a
/// status of three digits and no size outgrows 64 bits.
pub proof fn law_what_is_awaited(v: DownloadView, e: Event)
    ensures
        expects(v, e) <==> match v.phase {
            Phase::Directory => e is DirectoryReady,
            Phase::Part => e is PartSize,
            Phase::Client => e is ClientBuilt,
            Phase::Response => match e {
                Event::Responded(None) => true,
                Event::Responded(Some((status, length))) => 100 <= status <= 999 && match length {
                    Some(n) => status == 206 ==> v.already + n <= u64::MAX,
                    None => true,
                },
                _ => false,
            },
            Phase::Opening => e is Opened,
            Phase::CancelFlag => e is CancelFlag,
            Phase::Chunk => match e {
                Event::ChunkRead(Some(len)) => v.downloaded + len <= u64::MAX,
                Event::ChunkRead(None) => true,
                _ => e is ReadFailed,
            },
            Phase::Emptying { .. } => e is Emptied,
            Phase::Writing { .. } => e is Written,
            Phase::Reporting => e is Reported,
            Phase::Flushing => e is Flushed,
            Phase::Renaming => e is Renamed,
            Phase::Measuring => e is Measured,
            Phase::Removing { .. } => e is Removed,
            Phase::Announcing => e is Announced,
            Phase::Over => false,
        },
{
}

} // verus!
