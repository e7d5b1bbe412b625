//! The handling of a request to process a video.
//!
//! The audio is downloaded and sent to Kafka, and the downloaded file is removed
//! whether or not it could be sent.

use vstd::prelude::*;

use crate::config::{AppState, AppStateView};
use crate::download::{download_video, DownloadAnswers, DownloadStep};
use crate::error::{AppError, AppErrorView, BlockingCause, IoCause, IoCauseView};
use crate::response::{
    app_error_to_response, Response, ResponseView, STATUS_INTERNAL_SERVER_ERROR, STATUS_OK,
};
use crate::send::{send_audio_to_kafka, DeliveryView, SendStep};

verus! {

/// What a client asks for.
#[derive(Debug)]
pub struct YouTubeProcessRequest {
    pub youtube_url: String,
}

/// A request that waits for its download.
pub struct DownloadPending {
    url: String,
    brokers: String,
    topic: String,
}

/// A request that waits for its file to be sent.
pub struct SendPending {
    url: String,
    brokers: String,
    topic: String,
    path: String,
}

/// A request that waits for its file to be removed.
pub struct RemovePending {
    path: String,
    response: Response,
}

/// The next step of a request.
pub enum ProcessStep {
    /// The audio has to be downloaded.
    Download(DownloadPending),
    /// The downloaded file has to be sent.
    Send(SendPending),
    /// The downloaded file has to be removed.
    Remove(RemovePending),
    /// The request can be answered.
    Done(Response),
}

/// The model of a request.
pub struct RequestView {
    pub url: Seq<char>,
    pub state: AppStateView,
}

/// The model of a request whose audio was downloaded.
pub struct DownloadedView {
    pub request: RequestView,
    pub path: Seq<char>,
}

/// The model of a request that was carried out but for the removal of its file.
pub struct RemovalView {
    pub path: Seq<char>,
    pub response: ResponseView,
}

/// The model of a [`ProcessStep`].
pub enum ProcessView {
    Download { request: RequestView },
    Send { downloaded: DownloadedView },
    Remove { removal: RemovalView },
    Done { response: ResponseView },
}

/// The model of what a download came to: a result, or the reason why it could not run.
pub type DownloadOutcomeView = Result<Result<Seq<char>, AppErrorView>, Seq<char>>;

/// The model of an answer to a step of a request.
pub enum ProcessAnswer {
    /// What the download came to.
    Downloaded { outcome: DownloadOutcomeView },
    /// What the sending came to.
    Sent { result: Result<(), AppErrorView> },
    /// Whether the file could be removed.
    Removed { removed: Result<(), IoCauseView> },
}

impl View for DownloadPending {
    type V = RequestView;

    closed spec fn view(&self) -> RequestView {
        RequestView {
            url: self.url@,
            state: AppStateView { kafka_brokers: self.brokers@, kafka_topic: self.topic@ },
        }
    }
}

impl View for SendPending {
    type V = DownloadedView;

    closed spec fn view(&self) -> DownloadedView {
        DownloadedView {
            request: RequestView {
                url: self.url@,
                state: AppStateView { kafka_brokers: self.brokers@, kafka_topic: self.topic@ },
            },
            path: self.path@,
        }
    }
}

impl View for RemovePending {
    type V = RemovalView;

    closed spec fn view(&self) -> RemovalView {
        RemovalView { path: self.path@, response: self.response@ }
    }
}

impl View for ProcessStep {
    type V = ProcessView;

    open spec fn view(&self) -> ProcessView {
        match self {
            ProcessStep::Download(pending) => ProcessView::Download { request: pending@ },
            ProcessStep::Send(pending) => ProcessView::Send { downloaded: pending@ },
            ProcessStep::Remove(pending) => ProcessView::Remove { removal: pending@ },
            ProcessStep::Done(response) => ProcessView::Done { response: response@ },
        }
    }
}

/// The model of what a download came to.
pub open spec fn download_outcome_view(
    outcome: Result<Result<String, AppError>, BlockingCause>,
) -> DownloadOutcomeView {
    match outcome {
        Ok(Ok(path)) => Ok(Ok(path@)),
        Ok(Err(err)) => Ok(Err(err@)),
        Err(cause) => Err(cause@),
    }
}

/// The answer to a request whose audio was sent.
pub open spec fn processed_response(url: Seq<char>, path: Seq<char>) -> ResponseView {
    ResponseView {
        status: STATUS_OK,
        fields: seq![
            ("status"@, "success"@),
            ("message"@, "YouTube audio processed and sent to Kafka."@),
            ("original_url"@, url),
            ("audio_file_path_on_server"@, path),
        ],
    }
}

/// The answer to a request whose audio was downloaded to `path`.
pub open spec fn sent_response(
    url: Seq<char>,
    path: Seq<char>,
    sent: Result<(), AppErrorView>,
) -> ResponseView {
    match sent {
        Ok(()) => processed_response(url, path),
        Err(err) => crate::response::error_response(err),
    }
}

/// The step that follows `step` when it is answered with `answer`.
pub open spec fn process_next(step: ProcessView, answer: ProcessAnswer) -> ProcessView {
    match (step, answer) {
        (ProcessView::Download { request }, ProcessAnswer::Downloaded { outcome }) => {
            match outcome {
                Ok(Ok(path)) => ProcessView::Send { downloaded: DownloadedView { request, path } },
                Ok(Err(err)) => ProcessView::Done {
                    response: crate::response::error_response(err),
                },
                Err(text) => ProcessView::Done {
                    response: crate::response::error_response(AppErrorView::BlockingError(text)),
                },
            }
        },
        (ProcessView::Send { downloaded }, ProcessAnswer::Sent { result }) => ProcessView::Remove {
            removal: RemovalView {
                path: downloaded.path,
                response: sent_response(downloaded.request.url, downloaded.path, result),
            },
        },
        (ProcessView::Remove { removal }, ProcessAnswer::Removed { .. }) => ProcessView::Done {
            response: removal.response,
        },
        _ => step,
    }
}

/// Starts to handle a request to process a video.
pub fn process_youtube_url_handler(req: &YouTubeProcessRequest, state: &AppState) -> (res:
    ProcessStep)
    ensures
        res@ == (ProcessView::Download {
            request: RequestView { url: req.youtube_url@, state: state@ },
        }),
{
    ProcessStep::Download(
        DownloadPending {
            url: req.youtube_url.clone(),
            brokers: state.kafka_brokers.clone(),
            topic: state.kafka_topic.clone(),
        },
    )
}

impl DownloadPending {
    /// Starts the download.
    pub fn start(&self) -> (res: DownloadStep)
        ensures
            res@ == (crate::download::DownloadView::CreateDir { url: self@.url }),
    {
        download_video(self.url.as_str())
    }

    /// Goes on when the download has ended, or could not run.
    pub fn answer(self, outcome: Result<Result<String, AppError>, BlockingCause>) -> (res:
        ProcessStep)
        ensures
            res@ == process_next(
                ProcessView::Download { request: self@ },
                ProcessAnswer::Downloaded { outcome: download_outcome_view(outcome) },
            ),
    {
        match outcome {
            Ok(Ok(path)) => ProcessStep::Send(
                SendPending { url: self.url, brokers: self.brokers, topic: self.topic, path },
            ),
            Ok(Err(err)) => ProcessStep::Done(app_error_to_response(&err)),
            Err(cause) => ProcessStep::Done(
                app_error_to_response(&AppError::BlockingError(cause.text)),
            ),
        }
    }
}

/// Returns the answer to a request whose audio was sent.
fn make_processed_response(url: &str, path: &str) -> (res: Response)
    ensures
        res@ == processed_response(url@, path@),
{
    let fields: Vec<(String, String)> = vec![
        ("status".to_string(), "success".to_string()),
        ("message".to_string(), "YouTube audio processed and sent to Kafka.".to_string()),
        ("original_url".to_string(), url.to_string()),
        ("audio_file_path_on_server".to_string(), path.to_string()),
    ];
    assert(fields.deep_view() =~= processed_response(url@, path@).fields);
    Response { status: STATUS_OK, fields }
}

impl SendPending {
    /// The path of the downloaded file.
    pub fn path(&self) -> (res: &str)
        ensures
            res@ == self@.path,
    {
        self.path.as_str()
    }

    /// Starts to send the downloaded file.
    pub fn start(&self) -> (res: SendStep)
        ensures
            res@ == (crate::send::SendView::Read {
                job: crate::send::SendJobView {
                    path: self@.path,
                    brokers: self@.request.state.kafka_brokers,
                    topic: self@.request.state.kafka_topic,
                },
            }),
    {
        send_audio_to_kafka(self.path.as_str(), self.brokers.as_str(), self.topic.as_str())
    }

    /// Goes on when the sending has ended.
    pub fn answer(self, result: Result<(), AppError>) -> (res: ProcessStep)
        ensures
            res@ == process_next(
                ProcessView::Send { downloaded: self@ },
                ProcessAnswer::Sent { result: crate::error::job_view(result) },
            ),
    {
        let response = match result {
            Ok(()) => make_processed_response(self.url.as_str(), self.path.as_str()),
            Err(err) => app_error_to_response(&err),
        };
        ProcessStep::Remove(RemovePending { path: self.path, response })
    }
}

impl RemovePending {
    /// The path of the file.
    pub fn path(&self) -> (res: &str)
        ensures
            res@ == self@.path,
    {
        self.path.as_str()
    }

    /// Goes on when the file was removed, or could not be.
    pub fn answer(self, removed: Result<(), IoCause>) -> (res: ProcessStep)
        ensures
            res@ == process_next(
                ProcessView::Remove { removal: self@ },
                ProcessAnswer::Removed { removed: crate::error::io_view(removed) },
            ),
    {
        ProcessStep::Done(self.response)
    }
}

/// What a request is answered when its download came to `outcome` and its sending, if
/// it was sent, to `sent`.
pub open spec fn process_response(
    url: Seq<char>,
    outcome: DownloadOutcomeView,
    sent: Result<(), AppErrorView>,
) -> ResponseView {
    match outcome {
        Ok(Ok(path)) => sent_response(url, path, sent),
        Ok(Err(err)) => crate::response::error_response(err),
        Err(text) => crate::response::error_response(AppErrorView::BlockingError(text)),
    }
}

/// A downloaded file is removed before the request is answered, once, whether or not
/// it could be sent; where nothing was downloaded nothing is sent and nothing removed.
/// The answer does not depend on whether the removal went well.
pub proof fn law_downloaded_file_is_removed(
    request: RequestView,
    outcome: DownloadOutcomeView,
    sent: Result<(), AppErrorView>,
    removed: Result<(), IoCauseView>,
)
    ensures
        ({
            let response = process_response(request.url, outcome, sent);
            let first = process_next(
                ProcessView::Download { request },
                ProcessAnswer::Downloaded { outcome },
            );
            let second = process_next(first, ProcessAnswer::Sent { result: sent });
            let third = process_next(second, ProcessAnswer::Removed { removed });
            match outcome {
                Ok(Ok(path)) => {
                    &&& first == (ProcessView::Send {
                        downloaded: DownloadedView { request, path },
                    })
                    &&& second == (ProcessView::Remove { removal: RemovalView { path, response } })
                    &&& third == (ProcessView::Done { response })
                },
                _ => first == (ProcessView::Done { response }),
            }
        }),
{
}

/// A request is answered with success exactly where its audio was downloaded and sent.
pub proof fn law_process_succeeds(
    url: Seq<char>,
    outcome: DownloadOutcomeView,
    sent: Result<(), AppErrorView>,
)
    ensures
        process_response(url, outcome, sent).status == STATUS_OK <==> (outcome is Ok
            && outcome->Ok_0 is Ok && sent is Ok),
{
}

/// From end to end: whatever the outside answers to the steps of the download, which
/// may also not run at all, and to the steps of the sending, the request is answered
/// with success where all of it went well, and with an internal error otherwise.
pub proof fn law_process_status(
    url: Seq<char>,
    download: Result<DownloadAnswers, Seq<char>>,
    content: Result<Seq<u8>, IoCauseView>,
    created: Result<(), Seq<char>>,
    delivery: DeliveryView,
)
    ensures
        ({
            let outcome = match download {
                Ok(answers) => Ok(crate::download::download_result(answers)),
                Err(text) => Err(text),
            };
            let sent = crate::send::send_result(content, created, delivery);
            let status = process_response(url, outcome, sent).status;
            let success = {
                &&& download is Ok
                &&& crate::download::download_result(download->Ok_0) is Ok
                &&& content is Ok
                &&& created is Ok
                &&& delivery is Delivered
            };
            status == if success {
                STATUS_OK
            } else {
                STATUS_INTERNAL_SERVER_ERROR
            }
        }),
{
}

/// A request whose audio was downloaded and sent is answered with 200 and four members,
/// among them the URL that was asked for and the path of the audio, both whole.
pub proof fn law_processed_answer(
    request: RequestView,
    path: Seq<char>,
    sent: Result<(), AppErrorView>,
    removed: Result<(), IoCauseView>,
)
    requires
        sent is Ok,
    ensures
        ({
            let send = process_next(
                ProcessView::Download { request },
                ProcessAnswer::Downloaded { outcome: Ok(Ok(path)) },
            );
            let remove = process_next(send, ProcessAnswer::Sent { result: sent });
            let done = process_next(remove, ProcessAnswer::Removed { removed });
            &&& send matches ProcessView::Send { downloaded }
            &&& downloaded.path == path
            &&& downloaded.request.url == request.url
            &&& downloaded.request.state == request.state
            &&& remove matches ProcessView::Remove { removal }
            &&& removal.path == path
            &&& done matches ProcessView::Done { response }
            &&& response.status == 200
            &&& response.fields.len() == 4
            &&& response.fields[0].0 == "status"@
            &&& response.fields[0].1 == "success"@
            &&& response.fields[1].0 == "message"@
            &&& response.fields[1].1 == "YouTube audio processed and sent to Kafka."@
            &&& response.fields[2].0 == "original_url"@
            &&& response.fields[2].1 == request.url
            &&& response.fields[3].0 == "audio_file_path_on_server"@
            &&& response.fields[3].1 == path
        }),
{
}

/// Successful answers to requests for different URLs, or with different paths, differ.
pub proof fn law_processed_answers_differ(
    url: Seq<char>,
    other_url: Seq<char>,
    path: Seq<char>,
    other_path: Seq<char>,
)
    requires
        processed_response(url, path) == processed_response(other_url, other_path),
    ensures
        url == other_url,
        path == other_path,
{
    assert(processed_response(url, path).fields[2].1 == url);
    assert(processed_response(other_url, other_path).fields[2].1 == other_url);
    assert(processed_response(url, path).fields[3].1 == path);
    assert(processed_response(other_url, other_path).fields[3].1 == other_path);
}

/// A request that fails is answered with the one member `error`: the message tells what
/// failed, whether that was the download, the thread that it ran on, or the sending.
pub proof fn law_failed_answer(
    request: RequestView,
    downloaded: DownloadedView,
    err: AppErrorView,
    text: Seq<char>,
    removed: Result<(), IoCauseView>,
)
    ensures
        ({
            let lost = process_next(
                ProcessView::Download { request },
                ProcessAnswer::Downloaded { outcome: Ok(Err(err)) },
            );
            let blocked = process_next(
                ProcessView::Download { request },
                ProcessAnswer::Downloaded { outcome: Err(text) },
            );
            let remove = process_next(
                ProcessView::Send { downloaded },
                ProcessAnswer::Sent { result: Err(err) },
            );
            let unsent = process_next(remove, ProcessAnswer::Removed { removed });
            &&& lost matches ProcessView::Done { response } && response
                == crate::response::error_response(err)
            &&& blocked matches ProcessView::Done { response } && {
                &&& response.status == 500
                &&& response.fields.len() == 1
                &&& response.fields[0].0 == "error"@
                &&& crate::text::consists_of(
                    response.fields[0].1,
                    "Internal server error (blocking task): "@,
                    text,
                )
            }
            &&& remove matches ProcessView::Remove { removal } && removal.path == downloaded.path
            &&& unsent matches ProcessView::Done { response } && response
                == crate::response::error_response(err)
        }),
{
    crate::response::law_error_answer(AppErrorView::BlockingError(text));
}

/// The calls of a request whose audio is downloaded to `path` and sent: what is
/// downloaded, which file is sent and to where, which file is removed, and the answer.
pub proof fn law_process_calls(
    req: &YouTubeProcessRequest,
    state: &AppState,
    path: String,
    removed: Result<(), IoCause>,
    steps: (ProcessStep, ProcessStep, ProcessStep, ProcessStep),
    download: DownloadStep,
    sent: (&str, SendStep),
    gone: &str,
)
    requires
        call_ensures(process_youtube_url_handler, (req, state), steps.0),
        call_ensures(DownloadPending::start, (&steps.0->Download_0,), download),
        call_ensures(
            DownloadPending::answer,
            (steps.0->Download_0, Ok::<Result<String, AppError>, BlockingCause>(Ok(path))),
            steps.1,
        ),
        call_ensures(SendPending::path, (&steps.1->Send_0,), sent.0),
        call_ensures(SendPending::start, (&steps.1->Send_0,), sent.1),
        call_ensures(
            SendPending::answer,
            (steps.1->Send_0, Ok::<(), AppError>(())),
            steps.2,
        ),
        call_ensures(RemovePending::path, (&steps.2->Remove_0,), gone),
        call_ensures(RemovePending::answer, (steps.2->Remove_0, removed), steps.3),
    ensures
        steps.0 is Download && steps.1 is Send && steps.2 is Remove,
        download@ == (crate::download::DownloadView::CreateDir { url: req.youtube_url@ }),
        sent.0@ == path@,
        sent.1@ == (crate::send::SendView::Read {
            job: crate::send::SendJobView {
                path: path@,
                brokers: state.kafka_brokers@,
                topic: state.kafka_topic@,
            },
        }),
        gone@ == path@,
        steps.3 matches ProcessStep::Done(response) && {
            &&& response.status == 200
            &&& response.fields@.len() == 4
            &&& response.fields@[0].0@ == "status"@
            &&& response.fields@[0].1@ == "success"@
            &&& response.fields@[1].0@ == "message"@
            &&& response.fields@[1].1@ == "YouTube audio processed and sent to Kafka."@
            &&& response.fields@[2].0@ == "original_url"@
            &&& response.fields@[2].1@ == req.youtube_url@
            &&& response.fields@[3].0@ == "audio_file_path_on_server"@
            &&& response.fields@[3].1@ == path@
        },
{
    let request = RequestView { url: req.youtube_url@, state: state@ };
    law_processed_answer(request, path@, Ok(()), crate::error::io_view(removed));
    if let ProcessStep::Done(response) = steps.3 {
        crate::response::law_response_model(response);
    }
}

/// The calls of a request that fails: the answer is the one that
/// `app_error_to_response` gives for the failure, and a file that was downloaded is
/// removed.
pub proof fn law_process_failing_calls(
    pending: DownloadPending,
    sending: SendPending,
    path: &str,
    err: AppError,
    blocking: BlockingCause,
    removed: Result<(), IoCause>,
    ends: (ProcessStep, ProcessStep, ProcessStep, ProcessStep),
    gone: &str,
)
    requires
        call_ensures(
            DownloadPending::answer,
            (pending, Ok::<Result<String, AppError>, BlockingCause>(Err(err))),
            ends.0,
        ),
        call_ensures(
            DownloadPending::answer,
            (pending, Err::<Result<String, AppError>, BlockingCause>(blocking)),
            ends.1,
        ),
        call_ensures(SendPending::path, (&sending,), path),
        call_ensures(SendPending::answer, (sending, Err::<(), AppError>(err)), ends.2),
        call_ensures(RemovePending::path, (&ends.2->Remove_0,), gone),
        call_ensures(RemovePending::answer, (ends.2->Remove_0, removed), ends.3),
    ensures
        ends.0 matches ProcessStep::Done(response) && response@
            == crate::response::error_response(err@),
        ends.1 matches ProcessStep::Done(response) && {
            &&& response.status == 500
            &&& response.fields@.len() == 1
            &&& response.fields@[0].0@ == "error"@
            &&& crate::text::consists_of(
                response.fields@[0].1@,
                "Internal server error (blocking task): "@,
                blocking.text@,
            )
        },
        ends.2 is Remove,
        gone@ == path@,
        ends.3 matches ProcessStep::Done(response) && response@
            == crate::response::error_response(err@),
{
    crate::response::law_error_answer(AppErrorView::BlockingError(blocking.text@));
    if let ProcessStep::Done(response) = ends.1 {
        crate::response::law_response_model(response);
    }
}

/// The models of what a download came to and of an answered request leave nothing out and
/// change nothing.
pub proof fn law_process_models(
    path: String,
    err: AppError,
    blocking: BlockingCause,
    response: Response,
)
    ensures
        download_outcome_view(Ok(Ok(path))) == Ok::<Result<Seq<char>, AppErrorView>, Seq<char>>(
            Ok(path@),
        ),
        download_outcome_view(Ok(Err(err))) == Ok::<Result<Seq<char>, AppErrorView>, Seq<char>>(
            Err(err@),
        ),
        download_outcome_view(Err(blocking)) == Err::<Result<Seq<char>, AppErrorView>, Seq<char>>(
            blocking@,
        ),
        ProcessStep::Done(response)@ == (ProcessView::Done { response: response@ }),
{
}

} // verus!
