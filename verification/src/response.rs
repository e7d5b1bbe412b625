//! What the service answers to a client.

use vstd::prelude::*;

use crate::error::{AppError, AppErrorView};
use crate::text::joined;

verus! {

/// The status of an answer to a request that was carried out.
pub const STATUS_OK: u16 = 200;

/// The status of an answer to a request that the client has to change.
pub const STATUS_BAD_REQUEST: u16 = 400;

/// The status of an answer to a request that the service could not carry out.
pub const STATUS_INTERNAL_SERVER_ERROR: u16 = 500;

/// The content type of every body.
pub const CONTENT_TYPE: &'static str = "application/json";

/// An answer: a status and the members of the JSON object that is the body. Every
/// member is a string.
#[derive(Debug)]
pub struct Response {
    pub status: u16,
    pub fields: Vec<(String, String)>,
}

/// The model of a [`Response`].
pub struct ResponseView {
    pub status: u16,
    pub fields: Seq<(Seq<char>, Seq<char>)>,
}

impl View for Response {
    type V = ResponseView;

    open spec fn view(&self) -> ResponseView {
        ResponseView { status: self.status, fields: self.fields.deep_view() }
    }
}

/// The compact JSON text of an object with the given string members, as serde_json
/// writes it. Where a name occurs twice the later member counts.
pub uninterp spec fn json_object_text(members: Seq<(Seq<char>, Seq<char>)>) -> Seq<char>;

/// Calls `serde_json`: collects the members into a `serde_json::Map` of string values
/// and displays the object. The contract only says that the text depends on nothing
/// but the members.
#[verifier::external_body]
fn json_object(members: &Vec<(String, String)>) -> (text: String)
    ensures
        text@ == json_object_text(members.deep_view()),
{
    let object: serde_json::Map<String, serde_json::Value> = members
        .iter()
        .map(|(name, value)| (name.clone(), serde_json::Value::String(value.clone())))
        .collect();
    serde_json::Value::Object(object).to_string()
}

impl Response {
    /// The text of the body.
    pub fn body(&self) -> (text: String)
        ensures
            text@ == json_object_text(self@.fields),
    {
        json_object(&self.fields)
    }
}

/// What a client is told about an error.
pub open spec fn error_message(err: AppErrorView) -> Seq<char> {
    match err {
        AppErrorView::Io(cause) => "I/O error: "@ + cause.text,
        AppErrorView::Kafka(text) => "Kafka error: "@ + text,
        AppErrorView::YtDlp(text) => "Video processing error: "@ + text,
        AppErrorView::KafkaSendTimeout => "Kafka message send timed out"@,
        AppErrorView::BlockingError(text) => {
            "Internal server error (blocking task): "@ + text
        },
        AppErrorView::UploadError(text) => "File upload error: "@ + text,
    }
}

/// The answer to a request that failed: the client is at fault for an unusable upload
/// only, and the body holds one member, the message.
pub open spec fn error_response(err: AppErrorView) -> ResponseView {
    ResponseView {
        status: if err is UploadError {
            STATUS_BAD_REQUEST
        } else {
            STATUS_INTERNAL_SERVER_ERROR
        },
        fields: seq![("error"@, error_message(err))],
    }
}

/// Returns the answer to a request that failed with `err`.
pub fn app_error_to_response(err: &AppError) -> (res: Response)
    ensures
        res@ == error_response(err@),
{
    let (status, message): (u16, String) = match err {
        AppError::Io(cause) => (
            STATUS_INTERNAL_SERVER_ERROR,
            joined("I/O error: ", cause.text.as_str()),
        ),
        AppError::Kafka(cause) => (
            STATUS_INTERNAL_SERVER_ERROR,
            joined("Kafka error: ", cause.text.as_str()),
        ),
        AppError::YtDlp(msg) => (
            STATUS_INTERNAL_SERVER_ERROR,
            joined("Video processing error: ", msg.as_str()),
        ),
        AppError::KafkaSendTimeout => (
            STATUS_INTERNAL_SERVER_ERROR,
            "Kafka message send timed out".to_string(),
        ),
        AppError::BlockingError(msg) => (
            STATUS_INTERNAL_SERVER_ERROR,
            joined("Internal server error (blocking task): ", msg.as_str()),
        ),
        AppError::UploadError(msg) => (
            STATUS_BAD_REQUEST,
            joined("File upload error: ", msg.as_str()),
        ),
    };
    let fields: Vec<(String, String)> = vec![("error".to_string(), message)];
    assert(fields.deep_view() =~= seq![("error"@, error_message(err@))]);
    Response { status, fields }
}

/// No failure is answered with the status of success.
pub proof fn law_errors_are_not_ok(err: AppErrorView)
    ensures
        error_response(err).status != STATUS_OK,
        error_response(err).status == STATUS_BAD_REQUEST <==> err is UploadError,
        error_response(err).status == STATUS_INTERNAL_SERVER_ERROR <==> !(err is UploadError),
{
}

/// A client is told what the error displays, except that failures of yt-dlp and of
/// blocking tasks are announced in other words.
pub proof fn law_message_is_the_displayed_text(err: AppErrorView)
    requires
        !(err is YtDlp) && !(err is BlockingError),
    ensures
        error_message(err) == err.text(),
{
}

/// What a client is told about a failure: the status is 400 for an unusable upload and
/// 500 for anything else, and the only member is `error`, whose text is made of words
/// that tell the sort of failure and all of the text that the failure holds.
pub proof fn law_error_answer(err: AppErrorView)
    ensures
        error_response(err).status == (if err is UploadError {
            400u16
        } else {
            500u16
        }),
        error_response(err).fields.len() == 1,
        error_response(err).fields[0].0 == "error"@,
        ({
            let message = error_response(err).fields[0].1;
            match err {
                AppErrorView::Io(cause) => crate::text::consists_of(
                    message,
                    "I/O error: "@,
                    cause.text,
                ),
                AppErrorView::Kafka(text) => crate::text::consists_of(
                    message,
                    "Kafka error: "@,
                    text,
                ),
                AppErrorView::YtDlp(text) => crate::text::consists_of(
                    message,
                    "Video processing error: "@,
                    text,
                ),
                AppErrorView::KafkaSendTimeout => message == "Kafka message send timed out"@,
                AppErrorView::BlockingError(text) => crate::text::consists_of(
                    message,
                    "Internal server error (blocking task): "@,
                    text,
                ),
                AppErrorView::UploadError(text) => crate::text::consists_of(
                    message,
                    "File upload error: "@,
                    text,
                ),
            }
        }),
{
}

/// The same of a call of `app_error_to_response`, on the fields of the error and of the
/// answer.
pub proof fn law_app_error_to_response(err: &AppError, response: Response)
    requires
        call_ensures(app_error_to_response, (err,), response),
    ensures
        response.status == (if *err is UploadError {
            400u16
        } else {
            500u16
        }),
        response.fields@.len() == 1,
        response.fields@[0].0@ == "error"@,
        ({
            let message = response.fields@[0].1@;
            match *err {
                AppError::Io(cause) => crate::text::consists_of(
                    message,
                    "I/O error: "@,
                    cause.text@,
                ),
                AppError::Kafka(cause) => crate::text::consists_of(
                    message,
                    "Kafka error: "@,
                    cause.text@,
                ),
                AppError::YtDlp(text) => crate::text::consists_of(
                    message,
                    "Video processing error: "@,
                    text@,
                ),
                AppError::KafkaSendTimeout => message == "Kafka message send timed out"@,
                AppError::BlockingError(text) => crate::text::consists_of(
                    message,
                    "Internal server error (blocking task): "@,
                    text@,
                ),
                AppError::UploadError(text) => crate::text::consists_of(
                    message,
                    "File upload error: "@,
                    text@,
                ),
            }
        }),
{
    law_error_answer(err@);
    law_response_model(response);
}

/// The model of an answer leaves nothing out and changes nothing.
pub proof fn law_response_model(response: Response)
    ensures
        response@.status == response.status,
        response@.fields.len() == response.fields@.len(),
        forall|i: int|
            0 <= i < response.fields@.len() ==> (#[trigger] response@.fields[i]).0
                == response.fields@[i].0@ && response@.fields[i].1 == response.fields@[i].1@,
{
}

/// The statuses and the content type of the answers.
pub proof fn law_statuses()
    ensures
        STATUS_OK == 200,
        STATUS_BAD_REQUEST == 400,
        STATUS_INTERNAL_SERVER_ERROR == 500,
        CONTENT_TYPE@ == "application/json"@,
{
}

/// A body is the JSON text of the fields of its answer.
pub proof fn law_body(response: &Response, text: String)
    requires
        call_ensures(Response::body, (response,), text),
    ensures
        text@ == json_object_text(response.fields.deep_view()),
{
}

} // verus!
