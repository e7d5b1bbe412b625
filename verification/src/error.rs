//! What can go wrong in a job.

use vstd::prelude::*;

use crate::text::joined;

verus! {

/// An error of the operating system.
#[verifier::external_type_specification]
#[verifier::external_body]
pub struct ExIoError(std::io::Error);

/// An error of the Kafka client.
#[verifier::external_type_specification]
#[verifier::external_body]
pub struct ExKafkaError(rdkafka::error::KafkaError);

/// An error of the thread pool that runs blocking work.
#[verifier::external_type_specification]
#[verifier::external_body]
pub struct ExBlockingError(actix_web::error::BlockingError);

/// The kinds of errors of the operating system, as the standard library tells them apart.
#[verifier::external_type_specification]
pub struct ExErrorKind(std::io::ErrorKind);

/// `std::io::Error::kind` returns the kind of the error. Which kind a code of the
/// operating system belongs to rests on the machine, so nothing is said of it here.
pub assume_specification[ std::io::Error::kind ](err: &std::io::Error) -> (kind:
    std::io::ErrorKind);

/// Whether a value displays as `text`.
pub open spec fn displays_as<T: core::fmt::Display>(value: &T, text: Seq<char>) -> bool {
    exists|s: String|
        s@ == text && #[trigger] vstd::string::to_string_from_display_ensures::<T>(value, s)
}

/// Whether an error of the operating system says that it is of the given kind.
pub open spec fn is_of_kind(err: &std::io::Error, kind: std::io::ErrorKind) -> bool {
    call_ensures(std::io::Error::kind, (err,), kind)
}

/// A failed operation on a file or a process: its kind, and the text that it displays.
#[derive(Debug)]
pub struct IoCause {
    pub kind: std::io::ErrorKind,
    pub text: String,
}

/// The model of an [`IoCause`].
pub struct IoCauseView {
    pub kind: std::io::ErrorKind,
    pub text: Seq<char>,
}

impl View for IoCause {
    type V = IoCauseView;

    open spec fn view(&self) -> IoCauseView {
        IoCauseView { kind: self.kind, text: self.text@ }
    }
}

impl IoCause {
    /// The cause that an error of the operating system is.
    pub fn of(err: &std::io::Error) -> (res: IoCause)
        ensures
            is_of_kind(err, res@.kind),
            displays_as(err, res@.text),
    {
        IoCause { kind: err.kind(), text: err.to_string() }
    }
}

/// A failure of the Kafka client, known by the text that it displays.
#[derive(Debug)]
pub struct KafkaCause {
    pub text: String,
}

impl View for KafkaCause {
    type V = Seq<char>;

    open spec fn view(&self) -> Seq<char> {
        self.text@
    }
}

impl KafkaCause {
    /// The cause that an error of the Kafka client is.
    pub fn of(err: &rdkafka::error::KafkaError) -> (res: KafkaCause)
        ensures
            displays_as(err, res@),
    {
        KafkaCause { text: err.to_string() }
    }
}

/// A failure of the thread pool for blocking work, known by the text that it displays.
#[derive(Debug)]
pub struct BlockingCause {
    pub text: String,
}

impl View for BlockingCause {
    type V = Seq<char>;

    open spec fn view(&self) -> Seq<char> {
        self.text@
    }
}

impl BlockingCause {
    /// The cause that an error of the thread pool is.
    pub fn of(err: &actix_web::error::BlockingError) -> (res: BlockingCause)
        ensures
            displays_as(err, res@),
    {
        BlockingCause { text: err.to_string() }
    }
}

/// The model of what came of an operation on a file that yields no value.
pub open spec fn io_view(outcome: Result<(), IoCause>) -> Result<(), IoCauseView> {
    match outcome {
        Ok(()) => Ok(()),
        Err(cause) => Err(cause@),
    }
}

/// The model of what came of an operation of the Kafka client that yields no value.
pub open spec fn kafka_view(outcome: Result<(), KafkaCause>) -> Result<(), Seq<char>> {
    match outcome {
        Ok(()) => Ok(()),
        Err(cause) => Err(cause@),
    }
}

/// The model of what came of a job that yields no value.
pub open spec fn job_view(result: Result<(), AppError>) -> Result<(), AppErrorView> {
    match result {
        Ok(()) => Ok(()),
        Err(err) => Err(err@),
    }
}

/// Why a job failed.
#[derive(Debug)]
pub enum AppError {
    /// An operation on a file failed.
    Io(IoCause),
    /// The Kafka client failed.
    Kafka(KafkaCause),
    /// The download with yt-dlp failed.
    YtDlp(String),
    /// Kafka did not confirm a message in time.
    KafkaSendTimeout,
    /// The blocking part of a job could not run.
    BlockingError(String),
    /// The client uploaded nothing that can be used.
    UploadError(String),
}

/// The model of an [`AppError`].
pub enum AppErrorView {
    Io(IoCauseView),
    Kafka(Seq<char>),
    YtDlp(Seq<char>),
    KafkaSendTimeout,
    BlockingError(Seq<char>),
    UploadError(Seq<char>),
}

impl View for AppError {
    type V = AppErrorView;

    open spec fn view(&self) -> AppErrorView {
        match self {
            AppError::Io(cause) => AppErrorView::Io(cause@),
            AppError::Kafka(cause) => AppErrorView::Kafka(cause@),
            AppError::YtDlp(text) => AppErrorView::YtDlp(text@),
            AppError::KafkaSendTimeout => AppErrorView::KafkaSendTimeout,
            AppError::BlockingError(text) => AppErrorView::BlockingError(text@),
            AppError::UploadError(text) => AppErrorView::UploadError(text@),
        }
    }
}

impl AppErrorView {
    /// The text that the error displays.
    pub open spec fn text(self) -> Seq<char> {
        match self {
            AppErrorView::Io(cause) => "I/O error: "@ + cause.text,
            AppErrorView::Kafka(text) => "Kafka error: "@ + text,
            AppErrorView::YtDlp(text) => "yt-dlp execution error: "@ + text,
            AppErrorView::KafkaSendTimeout => "Kafka message send timed out"@,
            AppErrorView::BlockingError(text) => "Blocking task error: "@ + text,
            AppErrorView::UploadError(text) => "File upload error: "@ + text,
        }
    }

    /// The error from outside that this one passes on, if it passes one on.
    pub open spec fn source(self) -> Option<SourceView> {
        match self {
            AppErrorView::Io(cause) => Some(SourceView::Io(cause)),
            AppErrorView::Kafka(text) => Some(SourceView::Kafka(text)),
            _ => None,
        }
    }
}

/// The error from outside that an [`AppError`] passes on.
#[derive(Debug)]
pub enum Source<'a> {
    Io(&'a IoCause),
    Kafka(&'a KafkaCause),
}

/// The model of a [`Source`].
pub enum SourceView {
    Io(IoCauseView),
    Kafka(Seq<char>),
}

impl<'a> View for Source<'a> {
    type V = SourceView;

    open spec fn view(&self) -> SourceView {
        match self {
            Source::Io(cause) => SourceView::Io(cause@),
            Source::Kafka(cause) => SourceView::Kafka(cause@),
        }
    }
}

impl SourceView {
    /// The text that the error displays.
    pub open spec fn text(self) -> Seq<char> {
        match self {
            SourceView::Io(cause) => cause.text,
            SourceView::Kafka(text) => text,
        }
    }
}

impl<'a> Source<'a> {
    /// The text that the error displays.
    pub fn to_string(&self) -> (res: String)
        ensures
            res@ == self@.text(),
    {
        match self {
            Source::Io(cause) => cause.text.clone(),
            Source::Kafka(cause) => cause.text.clone(),
        }
    }
}

impl AppError {
    /// The text that the error displays.
    pub fn to_string(&self) -> (res: String)
        ensures
            res@ == self@.text(),
    {
        match self {
            AppError::Io(cause) => joined("I/O error: ", cause.text.as_str()),
            AppError::Kafka(cause) => joined("Kafka error: ", cause.text.as_str()),
            AppError::YtDlp(msg) => joined("yt-dlp execution error: ", msg.as_str()),
            AppError::KafkaSendTimeout => "Kafka message send timed out".to_string(),
            AppError::BlockingError(msg) => joined("Blocking task error: ", msg.as_str()),
            AppError::UploadError(msg) => joined("File upload error: ", msg.as_str()),
        }
    }

    /// The error from outside that this one passes on, if it passes one on.
    pub fn source(&self) -> (res: Option<Source<'_>>)
        ensures
            match res {
                Some(source) => self@.source() == Some(source@),
                None => self@.source() is None,
            },
    {
        match self {
            AppError::Io(cause) => Some(Source::Io(cause)),
            AppError::Kafka(cause) => Some(Source::Kafka(cause)),
            _ => None,
        }
    }

    /// The failure that an error of the operating system is.
    pub fn of_io(err: &std::io::Error) -> (res: AppError)
        ensures
            res@ is Io,
            is_of_kind(err, res@->Io_0.kind),
            displays_as(err, res@->Io_0.text),
    {
        AppError::Io(IoCause::of(err))
    }

    /// The failure that an error of the Kafka client is.
    pub fn of_kafka(err: &rdkafka::error::KafkaError) -> (res: AppError)
        ensures
            res@ is Kafka,
            displays_as(err, res@->Kafka_0),
    {
        AppError::Kafka(KafkaCause::of(err))
    }

    /// The failure that an error of the thread pool for blocking work is.
    pub fn of_blocking(err: &actix_web::error::BlockingError) -> (res: AppError)
        ensures
            res@ is BlockingError,
            displays_as(err, res@->BlockingError_0),
    {
        AppError::BlockingError(BlockingCause::of(err).text)
    }
}

/// A failure of the download with yt-dlp.
pub fn new_yt_dlp_error(msg: String) -> (res: AppError)
    ensures
        res@ == AppErrorView::YtDlp(msg@),
{
    AppError::YtDlp(msg)
}

/// An error that passes on another one displays that one's text at its end.
pub proof fn law_source_is_displayed(err: AppErrorView)
    ensures
        err.source() matches Some(source) ==> source.text().is_suffix_of(err.text()),
{
    if let Some(source) = err.source() {
        let head = err.text().len() - source.text().len();
        assert(source.text() =~= err.text().subrange(head, err.text().len() as int));
    }
}

/// The text that tells what kind of error it is.
spec fn headline(err: AppErrorView) -> Seq<char> {
    match err {
        AppErrorView::Io(_) => "I/O error: "@,
        AppErrorView::Kafka(_) => "Kafka error: "@,
        AppErrorView::YtDlp(_) => "yt-dlp execution error: "@,
        AppErrorView::KafkaSendTimeout => "Kafka message send timed out"@,
        AppErrorView::BlockingError(_) => "Blocking task error: "@,
        AppErrorView::UploadError(_) => "File upload error: "@,
    }
}

/// The details that follow the headline.
spec fn details(err: AppErrorView) -> Seq<char> {
    match err {
        AppErrorView::Io(cause) => cause.text,
        AppErrorView::Kafka(text) => text,
        AppErrorView::YtDlp(text) => text,
        AppErrorView::KafkaSendTimeout => Seq::empty(),
        AppErrorView::BlockingError(text) => text,
        AppErrorView::UploadError(text) => text,
    }
}

proof fn lemma_headline(err: AppErrorView)
    ensures
        err.text() == headline(err) + details(err),
        headline(err).len() > 6,
        err.text()[0] == headline(err)[0],
        err.text()[6] == headline(err)[6],
        details(err) == err.text().skip(headline(err).len() as int),
{
    reveal_strlit("I/O error: ");
    reveal_strlit("Kafka error: ");
    reveal_strlit("yt-dlp execution error: ");
    reveal_strlit("Kafka message send timed out");
    reveal_strlit("Blocking task error: ");
    reveal_strlit("File upload error: ");
    assert(err.text() =~= headline(err) + details(err));
    assert(details(err) =~= err.text().skip(headline(err).len() as int));
}

/// Two errors that display the same text are the same error, but for the kind of an
/// I/O error, which is not displayed.
pub proof fn law_text_tells_errors_apart(a: AppErrorView, b: AppErrorView)
    requires
        a.text() == b.text(),
    ensures
        a is Io <==> b is Io,
        a is Io ==> a->Io_0.text == b->Io_0.text,
        !(a is Io) ==> a == b,
{
    reveal_strlit("I/O error: ");
    reveal_strlit("Kafka error: ");
    reveal_strlit("yt-dlp execution error: ");
    reveal_strlit("Kafka message send timed out");
    reveal_strlit("Blocking task error: ");
    reveal_strlit("File upload error: ");
    lemma_headline(a);
    lemma_headline(b);
}

/// What an error displays: words that tell its sort, and behind them all of the text
/// that it holds.
pub proof fn law_displayed_text(err: AppErrorView)
    ensures
        match err {
            AppErrorView::Io(cause) => crate::text::consists_of(
                err.text(),
                "I/O error: "@,
                cause.text,
            ),
            AppErrorView::Kafka(text) => crate::text::consists_of(
                err.text(),
                "Kafka error: "@,
                text,
            ),
            AppErrorView::YtDlp(text) => crate::text::consists_of(
                err.text(),
                "yt-dlp execution error: "@,
                text,
            ),
            AppErrorView::KafkaSendTimeout => err.text() == "Kafka message send timed out"@,
            AppErrorView::BlockingError(text) => crate::text::consists_of(
                err.text(),
                "Blocking task error: "@,
                text,
            ),
            AppErrorView::UploadError(text) => crate::text::consists_of(
                err.text(),
                "File upload error: "@,
                text,
            ),
        },
{
}

/// I/O errors and Kafka errors pass on the error from outside with all that is known of
/// it, and no other error passes one on.
pub proof fn law_source_is_passed_on(err: AppErrorView)
    ensures
        err.source() is Some <==> err is Io || err is Kafka,
        err matches AppErrorView::Io(cause) ==> {
            &&& err.source() matches Some(SourceView::Io(source))
            &&& source.kind == cause.kind
            &&& source.text == cause.text
            &&& err.source()->Some_0.text() == cause.text
        },
        err matches AppErrorView::Kafka(text) ==> {
            &&& err.source() matches Some(SourceView::Kafka(source))
            &&& source == text
            &&& err.source()->Some_0.text() == text
        },
{
}

/// The text that a call of `to_string` returns: words that tell the sort of the error,
/// and behind them all of the text in its field.
pub proof fn law_to_string(err: &AppError, shown: String)
    requires
        call_ensures(AppError::to_string, (err,), shown),
    ensures
        match *err {
            AppError::Io(cause) => crate::text::consists_of(shown@, "I/O error: "@, cause.text@),
            AppError::Kafka(cause) => crate::text::consists_of(
                shown@,
                "Kafka error: "@,
                cause.text@,
            ),
            AppError::YtDlp(text) => crate::text::consists_of(
                shown@,
                "yt-dlp execution error: "@,
                text@,
            ),
            AppError::KafkaSendTimeout => shown@ == "Kafka message send timed out"@,
            AppError::BlockingError(text) => crate::text::consists_of(
                shown@,
                "Blocking task error: "@,
                text@,
            ),
            AppError::UploadError(text) => crate::text::consists_of(
                shown@,
                "File upload error: "@,
                text@,
            ),
        },
{
}

/// Where an error from outside displays but one text and is of but one kind, that text
/// and that kind are what is kept of it.
pub proof fn law_outside_error_is_kept(
    err: &std::io::Error,
    text: Seq<char>,
    kind: std::io::ErrorKind,
    kept: AppError,
)
    requires
        forall|s: String| #[trigger]
            vstd::string::to_string_from_display_ensures::<std::io::Error>(err, s) ==> s@ == text,
        forall|k: std::io::ErrorKind| #[trigger]
            call_ensures(std::io::Error::kind, (err,), k) ==> k == kind,
        call_ensures(AppError::of_io, (err,), kept),
    ensures
        kept matches AppError::Io(cause) && cause.text@ == text && cause.kind == kind,
{
}

/// Where an error of the Kafka client displays but one text, that text is kept of it.
pub proof fn law_kafka_error_is_kept(
    err: &rdkafka::error::KafkaError,
    text: Seq<char>,
    kept: AppError,
)
    requires
        forall|s: String| #[trigger]
            vstd::string::to_string_from_display_ensures::<rdkafka::error::KafkaError>(err, s)
                ==> s@ == text,
        call_ensures(AppError::of_kafka, (err,), kept),
    ensures
        kept matches AppError::Kafka(cause) && cause.text@ == text,
{
}

/// Where an error of the thread pool displays but one text, that text is kept of it.
pub proof fn law_blocking_error_is_kept(
    err: &actix_web::error::BlockingError,
    text: Seq<char>,
    kept: AppError,
)
    requires
        forall|s: String| #[trigger]
            vstd::string::to_string_from_display_ensures::<actix_web::error::BlockingError>(err, s)
                ==> s@ == text,
        call_ensures(AppError::of_blocking, (err,), kept),
    ensures
        kept matches AppError::BlockingError(shown) && shown@ == text,
{
}

/// The models of errors and of outcomes leave nothing out and change nothing.
pub proof fn law_error_models(
    io: IoCause,
    kafka: KafkaCause,
    blocking: BlockingCause,
    err: AppError,
)
    ensures
        io@.kind == io.kind && io@.text == io.text@,
        kafka@ == kafka.text@,
        blocking@ == blocking.text@,
        match err {
            AppError::Io(cause) => err@ == AppErrorView::Io(cause@),
            AppError::Kafka(cause) => err@ == AppErrorView::Kafka(cause@),
            AppError::YtDlp(text) => err@ == AppErrorView::YtDlp(text@),
            AppError::KafkaSendTimeout => err@ == AppErrorView::KafkaSendTimeout,
            AppError::BlockingError(text) => err@ == AppErrorView::BlockingError(text@),
            AppError::UploadError(text) => err@ == AppErrorView::UploadError(text@),
        },
        io_view(Ok(())) is Ok && io_view(Err(io)) == Err::<(), IoCauseView>(io@),
        kafka_view(Ok(())) is Ok && kafka_view(Err(kafka)) == Err::<(), Seq<char>>(kafka@),
        job_view(Ok(())) is Ok && job_view(Err(err)) == Err::<(), AppErrorView>(err@),
{
}

/// What calls of `source` and of the source's `to_string` return: the cause in the field
/// of an I/O error or a Kafka error, and its whole text.
pub proof fn law_source_calls(err: &AppError, res: Option<Source<'_>>, shown: String)
    requires
        call_ensures(AppError::source, (err,), res),
        res matches Some(source) ==> call_ensures(Source::to_string, (&source,), shown),
    ensures
        match *err {
            AppError::Io(cause) => {
                &&& res matches Some(Source::Io(source))
                &&& source.kind == cause.kind
                &&& source.text@ == cause.text@
                &&& shown@ == cause.text@
            },
            AppError::Kafka(cause) => {
                &&& res matches Some(Source::Kafka(source))
                &&& source.text@ == cause.text@
                &&& shown@ == cause.text@
            },
            _ => res is None,
        },
{
}

/// A failure of the download holds the message that it was made from.
pub proof fn law_new_yt_dlp_error(msg: String, err: AppError)
    requires
        call_ensures(new_yt_dlp_error, (msg,), err),
    ensures
        err matches AppError::YtDlp(text) && text@ == msg@,
{
}

} // verus!
