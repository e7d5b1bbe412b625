use actix_web::http::header::{ContentDisposition, DispositionParam, DispositionType};
use std::io::ErrorKind;
use std::path::Path;
use youtube_audio_pipeline::config::{producer_config, AppState};
use youtube_audio_pipeline::download::{download_video, file_not_found, DownloadStep};
use youtube_audio_pipeline::error::{AppError, BlockingCause, IoCause, KafkaCause, Source};
use youtube_audio_pipeline::process::{
    process_youtube_url_handler, ProcessStep, YouTubeProcessRequest,
};
use youtube_audio_pipeline::response::Response;
use youtube_audio_pipeline::send::{
    key_of_name, make_record_key, send_audio_to_kafka, Delivery, SendStep,
};
use youtube_audio_pipeline::upload::{upload_audio_handler, NextChunk, NextField, UploadStep};
use youtube_audio_pipeline::yt_dlp::{
    command_failed, execute_yt_dlp_command, parse_answer, read_answer, CommandOutcome, CommandOutput,
};

const OK: u16 = 200;
const BAD_REQUEST: u16 = 400;
const INTERNAL_SERVER_ERROR: u16 = 500;

fn mock_state() -> AppState {
    AppState {
        kafka_brokers: "mock_brokers".to_string(),
        kafka_topic: "mock_topic".to_string(),
    }
}

fn body_of(response: &Response) -> serde_json::Value {
    serde_json::from_str(&response.body()).unwrap()
}

fn io_cause(text: &str) -> IoCause {
    IoCause {
        kind: ErrorKind::Other,
        text: text.to_string(),
    }
}

fn kafka_cause(text: &str) -> KafkaCause {
    KafkaCause {
        text: text.to_string(),
    }
}

fn broker_failure() -> AppError {
    AppError::Kafka(kafka_cause("Broker transport failure"))
}

fn exited(success: bool, stdout: &[u8], stderr: &[u8]) -> CommandOutcome {
    CommandOutcome::Exited(CommandOutput {
        success,
        status: if success {
            "exit status: 0".to_string()
        } else {
            "exit status: 1".to_string()
        },
        stdout: stdout.to_vec(),
        stderr: stderr.to_vec(),
    })
}

// Handles a request with the given outcomes of the download, the sending and the
// removal; returns the answer and the files that were removed.
fn handle_process(
    download: Result<Result<String, AppError>, BlockingCause>,
    sent: Result<(), AppError>,
    removed: Result<(), IoCause>,
) -> (Response, Vec<String>) {
    let request = YouTubeProcessRequest {
        youtube_url: "https://some_youtube_url.com".to_string(),
    };
    let mut download = Some(download);
    let mut sent = Some(sent);
    let mut removed = Some(removed);
    let mut cleaned: Vec<String> = Vec::new();
    let mut step = process_youtube_url_handler(&request, &mock_state());
    loop {
        step = match step {
            ProcessStep::Download(pending) => {
                assert!(matches!(pending.start(), DownloadStep::CreateDir(_)));
                pending.answer(download.take().unwrap())
            }
            ProcessStep::Send(pending) => {
                match pending.start() {
                    SendStep::Read(read) => assert_eq!(read.path(), pending.path()),
                    _ => panic!("the file is read first"),
                }
                pending.answer(sent.take().unwrap())
            }
            ProcessStep::Remove(pending) => {
                cleaned.push(pending.path().to_string());
                pending.answer(removed.take().unwrap())
            }
            ProcessStep::Done(response) => return (response, cleaned),
        };
    }
}

struct Upload {
    response: Response,
    created: Vec<String>,
    written: Vec<u8>,
    sent: Vec<String>,
    removed: Vec<String>,
}

// Handles an upload with the given answers of the outside.
fn handle_upload(
    fields: Vec<NextField>,
    created: Result<(), IoCause>,
    chunks: Vec<(NextChunk, Result<(), IoCause>)>,
    sent: Result<(), AppError>,
    removed: Result<(), IoCause>,
) -> Upload {
    let mut fields = fields.into_iter();
    let mut chunks = chunks.into_iter();
    let mut created = Some(created);
    let mut sent = Some(sent);
    let mut removed = Some(removed);
    let mut write_result: Option<Result<(), IoCause>> = None;
    let mut files: (Vec<String>, Vec<String>, Vec<String>) = (vec![], vec![], vec![]);
    let mut written: Vec<u8> = vec![];
    let mut step = upload_audio_handler(&mock_state());
    loop {
        step = match step {
            UploadStep::ReadField(pending) => {
                pending.answer(fields.next().unwrap_or(NextField::End))
            }
            UploadStep::CreateFile(pending) => {
                files.0.push(pending.file().to_string());
                pending.answer(created.take().unwrap())
            }
            UploadStep::ReadChunk(pending) => {
                let (chunk, result) = chunks.next().unwrap_or((NextChunk::End, Ok(())));
                write_result = Some(result);
                pending.answer(chunk)
            }
            UploadStep::WriteChunk(pending) => {
                let result = write_result.take().unwrap();
                if result.is_ok() {
                    written.extend_from_slice(pending.data());
                }
                pending.answer(result)
            }
            UploadStep::Send(pending) => {
                files.1.push(pending.file().to_string());
                let path = format!("/tmp/{}", pending.file());
                match pending.start(&path) {
                    SendStep::Read(read) => assert_eq!(read.path(), path),
                    _ => panic!("the file is read first"),
                }
                pending.answer(sent.take().unwrap())
            }
            UploadStep::Remove(pending) => {
                files.2.push(pending.file().to_string());
                pending.answer(removed.take().unwrap())
            }
            UploadStep::Done(response) => {
                return Upload {
                    response,
                    created: files.0,
                    written,
                    sent: files.1,
                    removed: files.2,
                }
            }
        };
    }
}

fn mp3_field(name: &str) -> NextField {
    NextField::Field(Some(name.to_string()))
}

fn chunk(data: &[u8]) -> (NextChunk, Result<(), IoCause>) {
    (NextChunk::Chunk(data.to_vec()), Ok(()))
}

#[test]
fn test_process_youtube_url_success() {
    let mock_file_path = "/tmp/test_video_success.mp3".to_string();
    let (response, cleaned) = handle_process(Ok(Ok(mock_file_path.clone())), Ok(()), Ok(()));

    assert_eq!(response.status, OK);
    let body = body_of(&response);
    assert_eq!(body["status"], "success");
    assert_eq!(body["message"], "YouTube audio processed and sent to Kafka.");
    assert_eq!(body["original_url"], "https://some_youtube_url.com");
    assert_eq!(body["audio_file_path_on_server"], "/tmp/test_video_success.mp3");
    assert_eq!(body.as_object().unwrap().len(), 4);
    assert_eq!(cleaned, vec![mock_file_path]);
}

#[test]
fn test_process_youtube_url_download_failure() {
    let mock_error_msg = "mocked download failure from test".to_string();
    let (response, cleaned) = handle_process(
        Ok(Err(AppError::YtDlp(mock_error_msg.clone()))),
        Ok(()),
        Ok(()),
    );

    assert_eq!(response.status, INTERNAL_SERVER_ERROR);
    let body = body_of(&response);
    assert!(body["error"].as_str().unwrap().contains(&mock_error_msg));
    assert!(cleaned.is_empty());
}

#[test]
fn test_process_youtube_url_kafka_failure() {
    let mock_file_path = "/tmp/test_video_kafka_fail.mp3".to_string();
    let (response, cleaned) =
        handle_process(Ok(Ok(mock_file_path.clone())), Err(broker_failure()), Ok(()));

    assert_eq!(response.status, INTERNAL_SERVER_ERROR);
    let body = body_of(&response);
    assert!(body["error"]
        .as_str()
        .unwrap()
        .contains("Kafka error: Broker transport failure"));
    assert_eq!(cleaned, vec![mock_file_path]);
}

#[test]
fn test_process_blocking_failure() {
    let (response, cleaned) = handle_process(
        Err(BlockingCause {
            text: "pool is gone".to_string(),
        }),
        Ok(()),
        Ok(()),
    );
    assert_eq!(response.status, INTERNAL_SERVER_ERROR);
    assert_eq!(
        body_of(&response)["error"],
        "Internal server error (blocking task): pool is gone"
    );
    assert!(cleaned.is_empty());
}

#[test]
fn test_process_removal_failure_does_not_change_the_answer() {
    let path = "/tmp/v.mp3".to_string();
    let (kept, _) = handle_process(Ok(Ok(path.clone())), Ok(()), Err(io_cause("busy")));
    let (removed, _) = handle_process(Ok(Ok(path)), Ok(()), Ok(()));
    assert_eq!(kept.status, removed.status);
    assert_eq!(kept.body(), removed.body());
}

#[test]
fn test_upload_audio_success() {
    let upload = handle_upload(
        vec![mp3_field("test_upload.mp3")],
        Ok(()),
        vec![chunk(b"short mp3 content")],
        Ok(()),
        Ok(()),
    );

    assert_eq!(upload.response.status, OK);
    let body = body_of(&upload.response);
    assert_eq!(body["status"], "success");
    assert_eq!(body["message"], "Audio uploaded and sent to Kafka.");
    assert_eq!(body.as_object().unwrap().len(), 2);
    assert_eq!(upload.removed.len(), 1);
    assert!(upload.removed[0].contains(".mp3"));
    assert_eq!(upload.removed, upload.created);
    assert_eq!(upload.sent, upload.created);
    assert_eq!(upload.written, b"short mp3 content".to_vec());
}

#[test]
fn test_upload_audio_kafka_failure() {
    let upload = handle_upload(
        vec![mp3_field("test_upload_kfail.mp3")],
        Ok(()),
        vec![chunk(b"short mp3 content for kafka fail")],
        Err(broker_failure()),
        Ok(()),
    );

    assert_eq!(upload.response.status, INTERNAL_SERVER_ERROR);
    let body = body_of(&upload.response);
    assert!(body["error"]
        .as_str()
        .unwrap()
        .contains("Kafka error: Broker transport failure"));
    assert_eq!(upload.removed.len(), 1);
    assert!(upload.removed[0].contains(".mp3"));
}

#[test]
fn test_upload_audio_invalid_file_type() {
    let upload = handle_upload(
        vec![mp3_field("test_upload.txt")],
        Ok(()),
        vec![chunk(b"this is not an mp3")],
        Ok(()),
        Ok(()),
    );

    assert_eq!(upload.response.status, BAD_REQUEST);
    let body = body_of(&upload.response);
    assert!(body["error"].as_str().unwrap().contains("No MP3 file uploaded"));
    assert!(upload.created.is_empty());
    assert!(upload.removed.is_empty());
}

#[test]
fn test_upload_audio_no_file() {
    let upload = handle_upload(vec![], Ok(()), vec![], Ok(()), Ok(()));

    assert_eq!(upload.response.status, BAD_REQUEST);
    let body = body_of(&upload.response);
    assert!(body["error"].as_str().unwrap().contains("No MP3 file uploaded"));
    assert_eq!(
        body["error"],
        "File upload error: No MP3 file uploaded or file processing error."
    );
    assert!(upload.removed.is_empty());
}

#[test]
fn test_upload_unreadable_fields_count_as_none() {
    let upload = handle_upload(
        vec![NextField::Field(None), NextField::Failed, mp3_field("late.mp3")],
        Ok(()),
        vec![],
        Ok(()),
        Ok(()),
    );
    assert_eq!(upload.response.status, BAD_REQUEST);
    assert!(upload.created.is_empty());
}

#[test]
fn test_upload_takes_the_first_mp3_field() {
    let upload = handle_upload(
        vec![
            NextField::Field(None),
            mp3_field("notes.txt"),
            mp3_field("first.mp3"),
            mp3_field("second.mp3"),
        ],
        Ok(()),
        vec![chunk(b"ab"), chunk(b""), chunk(b"cd"), (NextChunk::Failed, Ok(()))],
        Ok(()),
        Err(io_cause("busy")),
    );
    assert_eq!(upload.response.status, OK);
    assert_eq!(upload.created.len(), 1);
    assert_eq!(upload.removed, upload.created);
    assert_eq!(upload.written, b"abcd".to_vec());
}

#[test]
fn test_upload_create_failure() {
    let upload = handle_upload(
        vec![mp3_field("a.mp3")],
        Err(io_cause("disk full")),
        vec![],
        Ok(()),
        Ok(()),
    );
    assert_eq!(upload.response.status, INTERNAL_SERVER_ERROR);
    assert_eq!(body_of(&upload.response)["error"], "I/O error: disk full");
    assert!(upload.removed.is_empty());
    assert!(upload.sent.is_empty());
}

#[test]
fn test_upload_write_failure() {
    let upload = handle_upload(
        vec![mp3_field("a.mp3")],
        Ok(()),
        vec![
            chunk(b"ab"),
            (NextChunk::Chunk(b"cd".to_vec()), Err(io_cause("disk full"))),
        ],
        Ok(()),
        Ok(()),
    );
    assert_eq!(upload.response.status, INTERNAL_SERVER_ERROR);
    assert_eq!(body_of(&upload.response)["error"], "I/O error: disk full");
    assert_eq!(upload.removed, upload.created);
    assert_eq!(upload.written, b"ab".to_vec());
    assert!(upload.sent.is_empty());
}

#[test]
fn test_temporary_files_have_new_random_names() {
    let name = || {
        handle_upload(vec![mp3_field("a.mp3")], Ok(()), vec![], Ok(()), Ok(()))
            .created
            .remove(0)
    };
    let first = name();
    assert_ne!(first, name());
    let id = uuid::Uuid::parse_str(first.strip_suffix(".mp3").unwrap()).unwrap();
    assert_eq!(id.get_version_num(), 4);
    assert_eq!(format!("{}.mp3", id), first);
    assert_eq!(make_record_key(&first), first);
    assert_eq!(make_record_key(&format!("/tmp/{}", first)), first);
}

#[test]
fn test_temporary_file_with_a_given_identifier() {
    match upload_audio_handler(&mock_state()) {
        UploadStep::ReadField(pending) => {
            match pending.answer_with_id(mp3_field("a.mp3"), "some-id") {
                UploadStep::CreateFile(pending) => assert_eq!(pending.file(), "some-id.mp3"),
                _ => panic!("no file is created"),
            }
        }
        _ => panic!("no field is read"),
    }
}

// Downloads with the given answers; returns the result and the arguments of the
// commands that were run.
fn handle_download(
    created: Result<(), IoCause>,
    dir: Option<&str>,
    outcomes: Vec<CommandOutcome>,
    exists: bool,
) -> (Result<String, AppError>, Vec<Vec<String>>) {
    let mut created = Some(created);
    let mut outcomes = outcomes.into_iter();
    let mut commands: Vec<Vec<String>> = vec![];
    let mut step = download_video("https://v.example/1");
    loop {
        step = match step {
            DownloadStep::CreateDir(pending) => {
                assert_eq!(pending.dir_name(), "youtube_downloads");
                pending.answer(created.take().unwrap(), dir)
            }
            DownloadStep::Run(pending) => {
                commands.push(pending.arguments());
                pending.answer(outcomes.next().unwrap())
            }
            DownloadStep::CheckFile(pending) => {
                assert_eq!(pending.path(), "/tmp/youtube_downloads/abc.mp3");
                pending.answer(exists)
            }
            DownloadStep::Done(result) => return (result, commands),
        };
    }
}

const DIR: Option<&str> = Some("/tmp/youtube_downloads");
const PRINTED_PATH: &[u8] = b" /tmp/youtube_downloads/abc.mp3\n";

fn error_text(result: Result<String, AppError>) -> String {
    result.unwrap_err().to_string()
}

#[test]
fn test_download_success() {
    let (result, commands) = handle_download(
        Ok(()),
        DIR,
        vec![
            exited(true, b"abc\n", b""),
            exited(true, PRINTED_PATH, b""),
            exited(true, b"", b"warning"),
        ],
        true,
    );
    assert_eq!(result.unwrap(), "/tmp/youtube_downloads/abc.mp3");
    let fetch = vec![
        "-f",
        "bestaudio/best",
        "--extract-audio",
        "--audio-format",
        "mp3",
        "-o",
        "/tmp/youtube_downloads/%(id)s.%(ext)s",
        "https://v.example/1",
    ];
    let mut filename = vec!["--get-filename"];
    filename.extend_from_slice(&fetch);
    assert_eq!(
        commands,
        vec![vec!["--get-id", "https://v.example/1"], filename, fetch]
    );
}

#[test]
fn test_download_dir_failures() {
    let (result, commands) = handle_download(Err(io_cause("denied")), None, vec![], true);
    assert_eq!(error_text(result), "I/O error: denied");
    assert!(commands.is_empty());

    let (result, commands) = handle_download(Ok(()), None, vec![], true);
    assert_eq!(
        error_text(result),
        "yt-dlp execution error: Temporary directory path is not valid UTF-8"
    );
    assert!(commands.is_empty());
}

#[test]
fn test_download_stops_at_the_first_failing_command() {
    let (result, commands) = handle_download(
        Ok(()),
        DIR,
        vec![CommandOutcome::NotStarted(io_cause("no such program"))],
        true,
    );
    assert_eq!(
        error_text(result),
        "yt-dlp execution error: Failed to execute yt-dlp command: no such program"
    );
    assert_eq!(commands.len(), 1);

    let (result, commands) = handle_download(
        Ok(()),
        DIR,
        vec![exited(true, b"abc", b""), exited(false, b"", b"bad \xff url")],
        true,
    );
    assert_eq!(
        error_text(result),
        "yt-dlp execution error: yt-dlp command failed with status exit status: 1: bad \u{fffd} url"
    );
    assert_eq!(commands.len(), 2);

    let (result, commands) = handle_download(
        Ok(()),
        DIR,
        vec![
            exited(true, b"abc", b""),
            exited(true, PRINTED_PATH, b""),
            exited(false, b"", b"gone"),
        ],
        true,
    );
    assert_eq!(
        error_text(result),
        "yt-dlp execution error: yt-dlp command failed with status exit status: 1: gone"
    );
    assert_eq!(commands.len(), 3);
}

#[test]
fn test_download_needs_answers() {
    let (result, _) = handle_download(Ok(()), DIR, vec![exited(true, b" \n", b"")], true);
    assert_eq!(
        error_text(result),
        "yt-dlp execution error: yt-dlp --get-id returned an empty string"
    );

    let (result, _) = handle_download(
        Ok(()),
        DIR,
        vec![exited(true, b"abc", b""), exited(true, b"", b"")],
        true,
    );
    assert_eq!(
        error_text(result),
        "yt-dlp execution error: yt-dlp --get-filename returned an empty string"
    );

    let bytes: Vec<u8> = b"ab\xff".to_vec();
    let detail = String::from_utf8(bytes.clone()).unwrap_err().to_string();
    let (result, _) = handle_download(Ok(()), DIR, vec![exited(true, &bytes, b"")], true);
    assert_eq!(
        error_text(result),
        format!(
            "yt-dlp execution error: Failed to parse yt-dlp --get-id output (not UTF-8): {}",
            detail
        )
    );
}

#[test]
fn test_download_without_a_file() {
    let (result, _) = handle_download(
        Ok(()),
        DIR,
        vec![
            exited(true, b"abc", b""),
            exited(true, PRINTED_PATH, b""),
            exited(true, b"", b""),
        ],
        false,
    );
    let error = result.unwrap_err();
    match error.source() {
        Some(Source::Io(cause)) => assert_eq!(cause.kind, ErrorKind::NotFound),
        _ => panic!("a missing file is an I/O error"),
    }
    assert_eq!(
        error.to_string(),
        "I/O error: Downloaded file not found at expected path: \"/tmp/youtube_downloads/abc.mp3\""
    );
    assert_eq!(
        file_not_found("\"x\"").to_string(),
        "I/O error: Downloaded file not found at expected path: \"x\""
    );
}

#[test]
fn test_command_answers() {
    let output = execute_yt_dlp_command(exited(true, b"abc\n", b"WARNING: y")).unwrap();
    assert!(output.success);
    assert_eq!(output.status, "exit status: 0");
    assert_eq!(output.stdout, b"abc\n".to_vec());
    assert_eq!(output.stderr, b"WARNING: y".to_vec());
    assert_eq!(
        execute_yt_dlp_command(exited(false, b"abc\n", b"no"))
            .unwrap_err()
            .to_string(),
        "yt-dlp execution error: yt-dlp command failed with status exit status: 1: no"
    );
    assert_eq!(
        command_failed("signal: 9 (SIGKILL)", "killed").to_string(),
        "yt-dlp execution error: yt-dlp command failed with status signal: 9 (SIGKILL): killed"
    );
    assert_eq!(
        parse_answer("--get-id", Ok("\tid \n".to_string())).unwrap(),
        "id"
    );
    assert_eq!(
        parse_answer("--x", Err("broken".to_string()))
            .unwrap_err()
            .to_string(),
        "yt-dlp execution error: Failed to parse yt-dlp --x output (not UTF-8): broken"
    );
    assert_eq!(
        read_answer("--get-id", exited(true, "é\n".as_bytes(), b"")).unwrap(),
        "é"
    );
}

struct Sending {
    result: Result<(), AppError>,
    sent: Vec<(String, Vec<u8>, Vec<u8>)>,
}

fn handle_sending(
    path: &str,
    content: Result<Vec<u8>, IoCause>,
    created: Result<(), KafkaCause>,
    delivery: Delivery,
) -> Sending {
    let mut content = Some(content);
    let mut created = Some(created);
    let mut delivery = Some(delivery);
    let mut sent: Vec<(String, Vec<u8>, Vec<u8>)> = vec![];
    let mut step = send_audio_to_kafka(path, "broker:9092", "audio");
    loop {
        step = match step {
            SendStep::Read(pending) => {
                assert_eq!(pending.path(), path);
                pending.answer(content.take().unwrap())
            }
            SendStep::CreateClient(pending) => {
                assert_eq!(pending.config().get("bootstrap.servers"), Some("broker:9092"));
                pending.answer(created.take().unwrap())
            }
            SendStep::Deliver(pending) => {
                let record = pending.record();
                sent.push((
                    record.topic.clone(),
                    record.key.clone(),
                    record.payload.clone(),
                ));
                pending.answer(delivery.take().unwrap())
            }
            SendStep::Done(result) => return Sending { result, sent },
        };
    }
}

#[test]
fn test_send_success() {
    let sending = handle_sending("/tmp/a/é.mp3", Ok(vec![1, 2]), Ok(()), Delivery::Delivered);
    assert!(sending.result.is_ok());
    assert_eq!(
        sending.sent,
        vec![("audio".to_string(), "é.mp3".as_bytes().to_vec(), vec![1, 2])]
    );
}

#[test]
fn test_send_without_a_file_name() {
    let sending = handle_sending("/tmp/..", Ok(vec![]), Ok(()), Delivery::Delivered);
    assert_eq!(sending.sent[0].1, b"unknown_file".to_vec());
}

#[test]
fn test_record_key_is_the_file_name_of_the_standard_library() {
    for path in [
        "", "/", ".", "..", "a", "/a", "a/", "a//", "a/b", "a/b/", "a/.", "a/./", "a/./.", "a/..",
        "a/../", "./a", "../a", "/.", "//", "a/b/../c", "a/...", "a/.b", "a/b.", "/tmp/x.mp3",
        "/tmp/über/ü.mp3", "./.", "./..", " ", "a/ ", "C:\\a\\b.mp3", "//server/share",
        "a:b", "ab:c", ":", "/tmp/a:b.mp3", "/tmp/b:", "C:", "C:a", "C:/", "C:/a", "a\\b/c", "\\",
        "\\\\server\\share\\a", "a\\..", "a\\.",
    ] {
        let expected = match Path::new(path).file_name() {
            Some(name) => name.to_string_lossy().into_owned(),
            None => "unknown_file".to_string(),
        };
        assert_eq!(make_record_key(path), expected, "{:?}", path);
        assert_eq!(make_record_key(&expected), expected, "{:?}", path);
    }
    assert_eq!(make_record_key("/tmp/youtube_downloads/abc.mp3"), "abc.mp3");
    assert_eq!(make_record_key("/tmp/12:30.mp3"), "12:30.mp3");
    assert_eq!(make_record_key("/tmp/youtube_downloads/.."), "unknown_file");
}

#[test]
fn test_record_key_of_a_given_name() {
    assert_eq!(key_of_name(Some("b.mp3".to_string())), "b.mp3");
    assert_eq!(key_of_name(None), "unknown_file");
    match send_audio_to_kafka("C:\\a\\b.mp3", "broker:9092", "audio") {
        SendStep::Read(read) => match read.answer(Ok(vec![5])) {
            SendStep::CreateClient(pending) => {
                match pending.answer_with_name(Ok(()), Some("b.mp3".to_string())) {
                    SendStep::Deliver(pending) => {
                        assert_eq!(pending.record().key, b"b.mp3".to_vec());
                        assert_eq!(pending.record().payload, vec![5]);
                        assert_eq!(pending.record().topic, "audio");
                    }
                    _ => panic!("no message is sent"),
                }
            }
            _ => panic!("no client is created"),
        },
        _ => panic!("no file is read"),
    }
}

#[test]
fn test_upload_statuses() {
    let status = |fields, created, sent| {
        handle_upload(fields, created, vec![chunk(b"x")], sent, Ok(()))
            .response
            .status
    };
    assert_eq!(status(vec![mp3_field("a.txt")], Ok(()), Ok(())), BAD_REQUEST);
    assert_eq!(status(vec![mp3_field("a.mp3")], Ok(()), Ok(())), OK);
    for error in [
        AppError::Io(io_cause("gone")),
        broker_failure(),
        AppError::KafkaSendTimeout,
    ] {
        assert_eq!(
            status(vec![mp3_field("a.mp3")], Ok(()), Err(error)),
            INTERNAL_SERVER_ERROR
        );
    }
    assert_eq!(
        status(vec![mp3_field("a.mp3")], Err(io_cause("full")), Ok(())),
        INTERNAL_SERVER_ERROR
    );
}

#[test]
fn test_send_failures() {
    let sending = handle_sending("/a", Err(io_cause("gone")), Ok(()), Delivery::Delivered);
    assert_eq!(sending.result.unwrap_err().to_string(), "I/O error: gone");
    assert!(sending.sent.is_empty());

    let sending = handle_sending("/a", Ok(vec![7]), Err(kafka_cause("config")), Delivery::Delivered);
    assert_eq!(sending.result.unwrap_err().to_string(), "Kafka error: config");
    assert!(sending.sent.is_empty());

    let sending = handle_sending("/a", Ok(vec![7]), Ok(()), Delivery::Rejected(kafka_cause("full")));
    assert_eq!(sending.result.unwrap_err().to_string(), "Kafka error: full");

    let sending = handle_sending("/a", Ok(vec![7]), Ok(()), Delivery::TimedOut);
    assert_eq!(
        sending.result.unwrap_err().to_string(),
        "Kafka message send timed out"
    );
}

#[test]
fn test_producer_config() {
    let config = producer_config("b1:9092,b2:9092");
    assert_eq!(config.get("bootstrap.servers"), Some("b1:9092,b2:9092"));
    assert_eq!(config.get("message.timeout.ms"), Some("5000"));
    assert_eq!(config.config_map().len(), 2);
}

#[test]
fn test_state_defaults() {
    let state = AppState::new(None, None);
    assert_eq!(state.kafka_brokers, "localhost:9092");
    assert_eq!(state.kafka_topic, "youtube_audio");
    let state = AppState::new(Some("b".to_string()), Some("t".to_string()));
    assert_eq!(state.kafka_brokers, "b");
    assert_eq!(state.kafka_topic, "t");
}

fn header(parameters: Vec<DispositionParam>) -> ContentDisposition {
    ContentDisposition {
        disposition: DispositionType::FormData,
        parameters,
    }
}

#[test]
fn test_field_with_a_header() {
    let named = NextField::with_header(&header(vec![
        DispositionParam::Name("audio_file".to_string()),
        DispositionParam::Filename("test_upload.mp3".to_string()),
        DispositionParam::Filename("other.txt".to_string()),
    ]));
    match &named {
        NextField::Field(Some(name)) => assert_eq!(name, "test_upload.mp3"),
        _ => panic!("the field has a file name"),
    }
    assert!(named.is_audio());

    let unnamed = NextField::with_header(&header(vec![DispositionParam::Name(
        "x.mp3".to_string(),
    )]));
    assert!(matches!(unnamed, NextField::Field(None)));
    assert!(!unnamed.is_audio());
}
