use neuma::downloader::{
    find_llm_model, find_model, part_file_name, range_header, CustomPath, Download, DownloadError,
    Event, Found, Model, Progress, Task,
};

/// A download with a partial file of `part` bytes, of which the server announces
/// `length` more, at its first look at the cancel flag.
fn reading(part: Option<u64>, length: Option<u64>) -> Download {
    let (mut d, task) = Download::begin(true);
    assert!(matches!(task, Task::CreateDirectory));
    assert!(matches!(d.step(Event::DirectoryReady(true)), Task::FindPart));
    assert!(matches!(d.step(Event::PartSize(part)), Task::BuildClient));
    d.step(Event::ClientBuilt(Ok(())));
    let resumed = part.unwrap_or(0) > 0;
    let status = if resumed { 206 } else { 200 };
    match d.step(Event::Responded(Some((status, length)))) {
        Task::OpenPart { append } => assert_eq!(append, resumed),
        _ => panic!("the partial file is not opened"),
    }
    assert!(matches!(d.step(Event::Opened(true)), Task::CheckCancel));
    d
}

/// Reads and writes a chunk. The first of a file that begins anew empties the part.
fn read_chunk(d: &mut Download, len: u64, ms: u64) -> Task {
    assert!(matches!(d.step(Event::CancelFlag(false)), Task::ReadChunk));
    match d.step(Event::ChunkRead(Some(len))) {
        Task::EmptyPart => assert!(matches!(d.step(Event::Emptied(true)), Task::WriteChunk)),
        task => assert!(matches!(task, Task::WriteChunk)),
    }
    d.step(Event::Written { ok: true, since_report_ms: ms })
}

fn to_renaming(d: &mut Download) {
    assert!(matches!(d.step(Event::CancelFlag(false)), Task::ReadChunk));
    assert!(matches!(d.step(Event::ChunkRead(None)), Task::Flush));
    match d.step(Event::Flushed(Ok(()))) {
        Task::EmptyPart => assert!(matches!(d.step(Event::Emptied(true)), Task::RenamePart)),
        task => assert!(matches!(task, Task::RenamePart)),
    }
}

#[test]
fn models_have_their_names() {
    assert_eq!(Model::Whisper.file_name(), "ggml-whisper-turbo.bin");
    assert_eq!(Model::Llm.file_name(), "qwen2.5-1.5b-instruct-q4_k_m.gguf");
    assert!(Model::Whisper.url().ends_with("/ggml-large-v3-turbo.bin"));
    assert!(Model::Llm.url().ends_with("/Qwen2.5-1.5B-Instruct-Q4_K_M.gguf"));
    assert_eq!(Model::Whisper.progress_event(), "neuma://download-progress");
    assert_eq!(Model::Llm.progress_event(), "neuma://llm-download-progress");
    assert_eq!(Model::Whisper.complete_event(), "neuma://download-complete");
    assert_eq!(Model::Llm.error_event(), "neuma://llm-download-error");
}

#[test]
fn part_file_stands_beside_the_target() {
    assert_eq!(part_file_name("ggml-whisper-turbo.bin"), "ggml-whisper-turbo.bin.part");
}

#[test]
fn models_are_found_in_order() {
    let here = CustomPath::Absolute { exists: true };
    let below = CustomPath::Relative { below_cwd: Some(true) };
    let gone = CustomPath::Relative { below_cwd: None };
    let walk = vec![false, true, true];
    assert!(find_model(here, true, &walk, true) == Some(Found::Custom));
    assert!(find_model(below, false, &walk, true) == Some(Found::Custom));
    assert!(find_model(gone, true, &walk, true) == Some(Found::Primary));
    assert!(find_model(CustomPath::Unset, false, &walk, true) == Some(Found::Ancestor(1)));
    assert!(find_model(CustomPath::Unset, false, &walk, false) == None);
    assert!(find_model(CustomPath::Absolute { exists: false }, false, &vec![], true) == None);
    assert!(find_llm_model(true, &walk, true) == Some(Found::Primary));
    assert!(find_llm_model(false, &walk, true) == Some(Found::Ancestor(1)));
}

#[test]
fn the_walk_ends_after_four_directories() {
    assert!(find_llm_model(false, &vec![false, false, false, true], true) == Some(Found::Ancestor(3)));
    assert!(find_llm_model(false, &vec![false, false, false, false, true], true) == None);
}

#[test]
fn a_fresh_download_runs_to_its_end() {
    let mut d = reading(None, Some(30));
    assert!(matches!(read_chunk(&mut d, 10, 5), Task::CheckCancel));
    match read_chunk(&mut d, 15, 200) {
        Task::Report(p) => assert!(
            p == Progress { downloaded: 25, total: 30, session_bytes: 25, remaining: 5 }
        ),
        _ => panic!("no report"),
    }
    assert!(matches!(d.step(Event::Reported), Task::CheckCancel));
    assert!(matches!(read_chunk(&mut d, 5, 199), Task::CheckCancel));
    to_renaming(&mut d);
    assert!(matches!(d.step(Event::Renamed(true)), Task::MeasureTarget));
    assert!(matches!(d.step(Event::Measured(Ok(30))), Task::Announce));
    assert!(matches!(d.step(Event::Announced), Task::Finish(Ok(()))));
}

#[test]
fn a_download_resumes() {
    let (mut d, _) = Download::begin(false);
    d.step(Event::PartSize(Some(100)));
    assert!(matches!(d.step(Event::ClientBuilt(Ok(()))), Task::Send { from: Some(100) }));
    assert_eq!(range_header(100), "bytes=100-");
    assert!(matches!(
        d.step(Event::Responded(Some((206, Some(50))))),
        Task::OpenPart { append: true }
    ));
    d.step(Event::Opened(true));
    match read_chunk(&mut d, 20, 1_000) {
        Task::Report(p) => assert!(
            p == Progress { downloaded: 120, total: 150, session_bytes: 20, remaining: 30 }
        ),
        _ => panic!("no report"),
    }
}

#[test]
fn a_server_that_sends_the_whole_file_starts_it_anew() {
    let (mut d, _) = Download::begin(false);
    d.step(Event::PartSize(Some(100)));
    assert!(matches!(d.step(Event::ClientBuilt(Ok(()))), Task::Send { from: Some(100) }));
    assert!(matches!(
        d.step(Event::Responded(Some((200, Some(150))))),
        Task::OpenPart { append: false }
    ));
    let mut unopened = d;
    assert_eq!(error_of(unopened.step(Event::Opened(false))), "failed to create download file");
    d.step(Event::Opened(true));
    match read_chunk(&mut d, 150, 1_000) {
        Task::Report(p) => assert!(
            p == Progress { downloaded: 150, total: 150, session_bytes: 150, remaining: 0 }
        ),
        _ => panic!("no report"),
    }
    d.step(Event::Reported);
    to_renaming(&mut d);
    assert!(matches!(d.step(Event::Renamed(true)), Task::MeasureTarget));
    let mut mixed = d;
    assert!(matches!(mixed.step(Event::Measured(Ok(250))), Task::RemoveTarget));
    assert!(matches!(d.step(Event::Measured(Ok(150))), Task::Announce));
}

/// A download that found a part of 100 bytes, which the server answers with the whole
/// file, at its first look at the cancel flag.
fn answered_whole() -> Download {
    let (mut d, _) = Download::begin(false);
    d.step(Event::PartSize(Some(100)));
    d.step(Event::ClientBuilt(Ok(())));
    d.step(Event::Responded(Some((200, Some(150)))));
    assert!(matches!(d.step(Event::Opened(true)), Task::CheckCancel));
    d
}

#[test]
fn the_part_is_kept_until_the_first_chunk() {
    // Cancelled, or broken off, before anything was written: nothing was emptied.
    let mut d = answered_whole();
    assert_eq!(error_of(d.step(Event::CancelFlag(true))), "cancelled");
    let mut d = answered_whole();
    assert!(matches!(d.step(Event::CancelFlag(false)), Task::ReadChunk));
    let mut broken = d;
    assert_eq!(error_of(broken.step(Event::ReadFailed)), "error reading download chunk");
    // The first chunk empties the part, and the second does not.
    assert!(matches!(d.step(Event::ChunkRead(Some(50))), Task::EmptyPart));
    let mut stuck = d;
    assert_eq!(error_of(stuck.step(Event::Emptied(false))), "failed to create download file");
    assert!(matches!(d.step(Event::Emptied(true)), Task::WriteChunk));
    assert!(matches!(
        d.step(Event::Written { ok: true, since_report_ms: 0 }),
        Task::CheckCancel
    ));
    d.step(Event::CancelFlag(false));
    assert!(matches!(d.step(Event::ChunkRead(Some(100))), Task::WriteChunk));
}

#[test]
fn a_resumed_part_is_never_emptied() {
    let mut d = reading(Some(100), Some(50));
    d.step(Event::CancelFlag(false));
    assert!(matches!(d.step(Event::ChunkRead(Some(50))), Task::WriteChunk));
    d.step(Event::Written { ok: true, since_report_ms: 0 });
    d.step(Event::CancelFlag(false));
    d.step(Event::ChunkRead(None));
    assert!(matches!(d.step(Event::Flushed(Ok(()))), Task::RenamePart));
}

#[test]
fn an_empty_file_empties_the_part_before_the_rename() {
    let mut d = answered_whole();
    d.step(Event::CancelFlag(false));
    assert!(matches!(d.step(Event::ChunkRead(None)), Task::Flush));
    assert!(matches!(d.step(Event::Flushed(Ok(()))), Task::EmptyPart));
    assert!(matches!(d.step(Event::Emptied(true)), Task::RenamePart));
}

#[test]
fn the_whole_file_may_have_any_length() {
    let (mut d, _) = Download::begin(false);
    d.step(Event::PartSize(Some(u64::MAX)));
    d.step(Event::ClientBuilt(Ok(())));
    assert!(d.accepts(&Event::Responded(Some((200, Some(u64::MAX))))));
    assert!(!d.accepts(&Event::Responded(Some((206, Some(1))))));
}

#[test]
fn an_empty_part_file_is_no_part_file() {
    let (mut d, _) = Download::begin(false);
    d.step(Event::PartSize(Some(0)));
    assert!(matches!(d.step(Event::ClientBuilt(Ok(()))), Task::Send { from: None }));
    assert!(matches!(
        d.step(Event::Responded(Some((200, None)))),
        Task::OpenPart { append: false }
    ));
}

#[test]
fn unknown_length_is_not_measured() {
    let mut d = reading(Some(40), None);
    to_renaming(&mut d);
    assert!(matches!(d.step(Event::Renamed(true)), Task::Announce));
}

#[test]
fn a_truncated_file_is_removed() {
    let mut d = reading(None, Some(1_024));
    to_renaming(&mut d);
    d.step(Event::Renamed(true));
    assert!(matches!(d.step(Event::Measured(Ok(1_000))), Task::RemoveTarget));
    match d.step(Event::Removed) {
        Task::Finish(Err(e)) => assert_eq!(
            e.message(),
            "download incomplete: server reported 1024 bytes but received 1000"
        ),
        _ => panic!("no error"),
    }
}

#[test]
fn cancelling_ends_the_download() {
    let mut d = reading(None, Some(10));
    match d.step(Event::CancelFlag(true)) {
        Task::Finish(Err(e)) => assert_eq!(e.message(), "cancelled"),
        _ => panic!("no error"),
    }
    assert!(!d.accepts(&Event::CancelFlag(false)));
}

fn error_of(task: Task) -> String {
    match task {
        Task::Finish(Err(e)) => e.message(),
        _ => panic!("no error"),
    }
}

#[test]
fn every_failure_has_its_words() {
    let (mut d, _) = Download::begin(true);
    assert_eq!(error_of(d.step(Event::DirectoryReady(false))), "failed to create models directory");

    let (mut d, _) = Download::begin(false);
    d.step(Event::PartSize(None));
    assert_eq!(error_of(d.step(Event::ClientBuilt(Err("no tls".to_string())))), "no tls");

    let (mut d, _) = Download::begin(false);
    d.step(Event::PartSize(None));
    d.step(Event::ClientBuilt(Ok(())));
    let mut e = d;
    assert_eq!(error_of(d.step(Event::Responded(None))), "failed to start download");
    assert_eq!(
        error_of(e.step(Event::Responded(Some((404, None))))),
        "unexpected HTTP status: 404 Not Found"
    );

    let (mut d, _) = Download::begin(false);
    d.step(Event::PartSize(None));
    d.step(Event::ClientBuilt(Ok(())));
    d.step(Event::Responded(Some((200, None))));
    assert_eq!(error_of(d.step(Event::Opened(false))), "failed to create download file");
    assert_eq!(
        DownloadError::Open { append: true }.message(),
        "failed to open partial download file"
    );

    let mut d = reading(None, Some(10));
    d.step(Event::CancelFlag(false));
    let mut e = d;
    assert_eq!(error_of(d.step(Event::ReadFailed)), "error reading download chunk");
    e.step(Event::ChunkRead(Some(3)));
    e.step(Event::Emptied(true));
    assert_eq!(
        error_of(e.step(Event::Written { ok: false, since_report_ms: 0 })),
        "failed to write chunk to disk"
    );

    let mut d = reading(None, Some(10));
    d.step(Event::CancelFlag(false));
    d.step(Event::ChunkRead(None));
    let mut e = d;
    assert_eq!(error_of(d.step(Event::Flushed(Err("disk full".to_string())))), "disk full");
    e.step(Event::Flushed(Ok(())));
    e.step(Event::Emptied(true));
    assert_eq!(error_of(e.step(Event::Renamed(false))), "failed to finalize downloaded file");

    let mut d = reading(None, Some(10));
    to_renaming(&mut d);
    d.step(Event::Renamed(true));
    assert_eq!(error_of(d.step(Event::Measured(Err("gone".to_string())))), "gone");
}

#[test]
fn only_awaited_events_are_accepted() {
    let (d, _) = Download::begin(false);
    assert!(d.accepts(&Event::PartSize(Some(u64::MAX))));
    assert!(!d.accepts(&Event::Announced));
    assert!(!d.accepts(&Event::Removed));
    let mut d = d;
    d.step(Event::PartSize(Some(10)));
    d.step(Event::ClientBuilt(Ok(())));
    assert!(d.accepts(&Event::Responded(Some((206, Some(u64::MAX - 10))))));
    assert!(!d.accepts(&Event::Responded(Some((206, Some(u64::MAX))))));
    assert!(!d.accepts(&Event::Responded(Some((99, None)))));
}
