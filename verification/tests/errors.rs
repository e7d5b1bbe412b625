use rdkafka::error::KafkaError;
use std::io::ErrorKind;
use youtube_audio_pipeline::error::{
    new_yt_dlp_error, AppError, BlockingCause, IoCause, KafkaCause, Source,
};
use youtube_audio_pipeline::response::{app_error_to_response, Response};

const INTERNAL_SERVER_ERROR: u16 = 500;
const BAD_REQUEST: u16 = 400;

fn fields_of(response: &Response) -> Vec<(&str, &str)> {
    response
        .fields
        .iter()
        .map(|(name, value)| (name.as_str(), value.as_str()))
        .collect()
}

fn io_failure() -> AppError {
    AppError::Io(IoCause {
        kind: ErrorKind::Other,
        text: "x".to_string(),
    })
}

fn kafka_failure() -> AppError {
    AppError::Kafka(KafkaCause {
        text: "x".to_string(),
    })
}

#[test]
fn test_app_error_io_display_and_source() {
    let original_io_error = std::io::Error::new(ErrorKind::NotFound, "file not found for test");
    let original_io_error_str = original_io_error.to_string();
    let app_error = AppError::of_io(&original_io_error);

    assert_eq!(
        app_error.to_string(),
        format!("I/O error: {}", original_io_error_str)
    );
    assert!(app_error.source().is_some());
    assert_eq!(app_error.source().unwrap().to_string(), original_io_error_str);
}

#[test]
fn test_app_error_kafka_display_and_source() {
    let kafka_sdk_error =
        KafkaError::ClientCreation("Test Kafka client creation error".to_string());
    let kafka_sdk_error_str = kafka_sdk_error.to_string();
    let app_error = AppError::of_kafka(&kafka_sdk_error);

    assert_eq!(
        app_error.to_string(),
        format!("Kafka error: {}", kafka_sdk_error_str)
    );
    assert!(app_error.source().is_some());
    assert_eq!(app_error.source().unwrap().to_string(), kafka_sdk_error_str);
}

#[test]
fn test_app_error_yt_dlp_display_and_source() {
    let error_msg = "yt-dlp command execution failed badly".to_string();
    let app_error = AppError::YtDlp(error_msg.clone());

    assert_eq!(
        app_error.to_string(),
        format!("yt-dlp execution error: {}", error_msg)
    );
    assert!(app_error.source().is_none());
}

#[test]
fn test_app_error_kafka_send_timeout_display_and_source() {
    let app_error = AppError::KafkaSendTimeout;
    assert_eq!(app_error.to_string(), "Kafka message send timed out");
    assert!(app_error.source().is_none());
}

#[test]
fn test_app_error_blocking_error_display_and_source() {
    let error_msg = "Task was cancelled".to_string();
    let app_error = AppError::BlockingError(error_msg.clone());
    assert_eq!(
        app_error.to_string(),
        format!("Blocking task error: {}", error_msg)
    );
    assert!(app_error.source().is_none());
}

#[test]
fn test_app_error_upload_error_display_and_source() {
    let error_msg = "No valid file in upload".to_string();
    let app_error = AppError::UploadError(error_msg.clone());
    assert_eq!(
        app_error.to_string(),
        format!("File upload error: {}", error_msg)
    );
    assert!(app_error.source().is_none());
}

#[test]
fn test_app_error_to_response_io() {
    let app_error = AppError::of_io(&std::io::Error::new(ErrorKind::Other, "test"));
    let response = app_error_to_response(&app_error);
    assert_eq!(response.status, INTERNAL_SERVER_ERROR);
    assert_eq!(fields_of(&response), vec![("error", "I/O error: test")]);
}

#[test]
fn test_app_error_to_response_kafka() {
    let app_error = AppError::of_kafka(&KafkaError::ClientCreation("test".to_string()));
    let response = app_error_to_response(&app_error);
    assert_eq!(response.status, INTERNAL_SERVER_ERROR);
    assert_eq!(
        fields_of(&response),
        vec![("error", "Kafka error: Client creation error: test")]
    );
}

#[test]
fn test_app_error_to_response_yt_dlp() {
    let app_error = AppError::YtDlp("test".to_string());
    let response = app_error_to_response(&app_error);
    assert_eq!(response.status, INTERNAL_SERVER_ERROR);
    assert_eq!(
        fields_of(&response),
        vec![("error", "Video processing error: test")]
    );
}

#[test]
fn test_app_error_to_response_kafka_send_timeout() {
    let app_error = AppError::KafkaSendTimeout;
    let response = app_error_to_response(&app_error);
    assert_eq!(response.status, INTERNAL_SERVER_ERROR);
    assert_eq!(
        fields_of(&response),
        vec![("error", "Kafka message send timed out")]
    );
}

#[test]
fn test_app_error_to_response_blocking_error() {
    let app_error = AppError::BlockingError("test".to_string());
    let response = app_error_to_response(&app_error);
    assert_eq!(response.status, INTERNAL_SERVER_ERROR);
    assert_eq!(
        fields_of(&response),
        vec![("error", "Internal server error (blocking task): test")]
    );
}

#[test]
fn test_app_error_to_response_upload_error() {
    let app_error = AppError::UploadError("test".to_string());
    let response = app_error_to_response(&app_error);
    assert_eq!(response.status, BAD_REQUEST);
    assert_eq!(
        fields_of(&response),
        vec![("error", "File upload error: test")]
    );
}

#[test]
fn test_new_yt_dlp_error() {
    assert_eq!(
        new_yt_dlp_error("no network".to_string()).to_string(),
        "yt-dlp execution error: no network"
    );
}

#[test]
fn test_errors_of_different_kinds_display_different_texts() {
    let texts: Vec<String> = vec![
        io_failure().to_string(),
        kafka_failure().to_string(),
        AppError::YtDlp("x".to_string()).to_string(),
        AppError::KafkaSendTimeout.to_string(),
        AppError::BlockingError("x".to_string()).to_string(),
        AppError::UploadError("x".to_string()).to_string(),
    ];
    for (i, a) in texts.iter().enumerate() {
        for (j, b) in texts.iter().enumerate() {
            assert_eq!(i == j, a == b);
        }
    }
}

#[test]
fn test_response_body_is_json() {
    let response = app_error_to_response(&AppError::YtDlp("a \"quoted\"\nline \\ end".to_string()));
    assert_eq!(
        response.body(),
        "{\"error\":\"Video processing error: a \\\"quoted\\\"\\nline \\\\ end\"}"
    );
    let value: serde_json::Value = serde_json::from_str(&response.body()).unwrap();
    assert_eq!(
        value["error"],
        "Video processing error: a \"quoted\"\nline \\ end"
    );
}

#[test]
fn test_message_is_the_displayed_text() {
    for error in [
        io_failure(),
        kafka_failure(),
        AppError::KafkaSendTimeout,
        AppError::UploadError("x".to_string()),
    ] {
        let response = app_error_to_response(&error);
        assert_eq!(response.fields.len(), 1);
        assert_eq!(response.fields[0].1, error.to_string());
    }
    for error in [
        AppError::YtDlp("x".to_string()),
        AppError::BlockingError("x".to_string()),
    ] {
        assert_ne!(app_error_to_response(&error).fields[0].1, error.to_string());
    }
}

#[test]
fn test_errors_of_the_operating_system_keep_their_kind() {
    for kind in [
        ErrorKind::NotFound,
        ErrorKind::PermissionDenied,
        ErrorKind::TimedOut,
        ErrorKind::Other,
    ] {
        let error = std::io::Error::new(kind, "detail");
        let cause = IoCause::of(&error);
        assert_eq!(cause.kind, kind);
        assert_eq!(cause.text, "detail");
        let app_error = AppError::of_io(&error);
        assert_eq!(app_error.to_string(), "I/O error: detail");
        match app_error.source() {
            Some(Source::Io(source)) => assert_eq!(source.kind, kind),
            _ => panic!("an I/O error has its cause as its source"),
        }
    }
}

#[test]
fn test_errors_of_the_kafka_client() {
    let error = KafkaError::MessageProduction(rdkafka::error::RDKafkaErrorCode::QueueFull);
    assert_eq!(KafkaCause::of(&error).text, error.to_string());
    match AppError::of_kafka(&error) {
        AppError::Kafka(cause) => assert_eq!(cause.text, error.to_string()),
        _ => panic!("an error of the client is a Kafka error"),
    }
}

#[test]
fn test_errors_of_the_blocking_pool() {
    let error = actix_web::rt::System::new()
        .block_on(async { actix_web::web::block(|| -> () { panic!("the task is lost") }).await })
        .unwrap_err();
    assert_eq!(BlockingCause::of(&error).text, error.to_string());
    let app_error = AppError::of_blocking(&error);
    assert!(app_error.source().is_none());
    assert_eq!(
        app_error.to_string(),
        format!("Blocking task error: {}", error)
    );
    assert!(matches!(app_error, AppError::BlockingError(_)));
}
