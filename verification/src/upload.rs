//! The handling of an upload.
//!
//! The fields of the upload are read up to the first one whose file name ends with
//! `.mp3`. Its content is saved to a temporary file and sent to Kafka, and the file is
//! removed whether or not it could be sent. Temporary files are named within the
//! directory of temporary files.

use actix_web::http::header::ContentDisposition;
use vstd::prelude::*;

use crate::config::{AppState, AppStateView};
use crate::error::{AppError, AppErrorView, IoCause, IoCauseView};
use crate::response::{
    app_error_to_response, Response, ResponseView, STATUS_BAD_REQUEST, STATUS_INTERNAL_SERVER_ERROR,
    STATUS_OK,
};
use crate::send::{send_audio_to_kafka, SendStep};
use crate::text::{ends_with, joined};

verus! {

/// What file names of audio end with.
pub const MP3_SUFFIX: &'static str = ".mp3";

/// What the next field of an upload is.
#[derive(Debug)]
pub enum NextField {
    /// A field, with its file name where it has one.
    Field(Option<String>),
    /// There are no more fields.
    End,
    /// The fields could not be read any further.
    Failed,
}

/// What the next piece of a field's content is.
#[derive(Debug)]
pub enum NextChunk {
    /// A piece of the content.
    Chunk(Vec<u8>),
    /// The content has ended.
    End,
    /// The content could not be read any further.
    Failed,
}

/// The model of a [`NextField`].
pub enum NextFieldView {
    Field(Option<Seq<char>>),
    End,
    Failed,
}

/// The model of a [`NextChunk`].
pub enum NextChunkView {
    Chunk(Seq<u8>),
    End,
    Failed,
}

impl View for NextField {
    type V = NextFieldView;

    open spec fn view(&self) -> NextFieldView {
        match self {
            NextField::Field(Some(name)) => NextFieldView::Field(Some(name@)),
            NextField::Field(None) => NextFieldView::Field(None),
            NextField::End => NextFieldView::End,
            NextField::Failed => NextFieldView::Failed,
        }
    }
}

impl View for NextChunk {
    type V = NextChunkView;

    open spec fn view(&self) -> NextChunkView {
        match self {
            NextChunk::Chunk(data) => NextChunkView::Chunk(data@),
            NextChunk::End => NextChunkView::End,
            NextChunk::Failed => NextChunkView::Failed,
        }
    }
}

/// An upload that waits for its next field.
pub struct FieldPending {
    brokers: String,
    topic: String,
}

/// An upload that waits for its temporary file.
pub struct CreatePending {
    brokers: String,
    topic: String,
    file: String,
}

/// An upload that waits for the next piece of its content.
pub struct ChunkPending {
    brokers: String,
    topic: String,
    file: String,
}

/// An upload that waits for a piece of its content to be written.
pub struct WritePending {
    brokers: String,
    topic: String,
    file: String,
    data: Vec<u8>,
}

/// An upload that waits for its file to be sent.
pub struct SendPending {
    brokers: String,
    topic: String,
    file: String,
}

/// An upload that waits for its file to be removed.
pub struct RemovePending {
    file: String,
    response: Response,
}

/// The next step of an upload.
pub enum UploadStep {
    /// The next field has to be read.
    ReadField(FieldPending),
    /// The temporary file has to be created.
    CreateFile(CreatePending),
    /// The next piece of the content has to be read.
    ReadChunk(ChunkPending),
    /// A piece of the content has to be written to the temporary file.
    WriteChunk(WritePending),
    /// The temporary file has to be sent.
    Send(SendPending),
    /// The temporary file has to be removed.
    Remove(RemovePending),
    /// The upload can be answered.
    Done(Response),
}

/// The model of an upload that has a temporary file.
pub struct FileView {
    pub state: AppStateView,
    pub file: Seq<char>,
}

/// The model of an [`UploadStep`].
pub enum UploadView {
    ReadField { state: AppStateView },
    CreateFile { file: FileView },
    ReadChunk { file: FileView },
    WriteChunk { file: FileView, data: Seq<u8> },
    Send { file: FileView },
    Remove { name: Seq<char>, response: ResponseView },
    Done { response: ResponseView },
}

/// The model of an answer to a step of an upload.
pub enum UploadAnswer {
    /// The next field, and an identifier for a temporary file.
    FieldRead { field: NextFieldView, id: Seq<char> },
    /// Whether the temporary file could be created.
    FileCreated { created: Result<(), IoCauseView> },
    /// The next piece of the content.
    ChunkRead { chunk: NextChunkView },
    /// Whether the piece could be written.
    ChunkWritten { written: Result<(), IoCauseView> },
    /// What the sending came to.
    Sent { result: Result<(), AppErrorView> },
    /// Whether the temporary file could be removed.
    Removed { removed: Result<(), IoCauseView> },
}

impl View for FieldPending {
    type V = AppStateView;

    closed spec fn view(&self) -> AppStateView {
        AppStateView { kafka_brokers: self.brokers@, kafka_topic: self.topic@ }
    }
}

impl View for CreatePending {
    type V = FileView;

    closed spec fn view(&self) -> FileView {
        FileView {
            state: AppStateView { kafka_brokers: self.brokers@, kafka_topic: self.topic@ },
            file: self.file@,
        }
    }
}

impl View for ChunkPending {
    type V = FileView;

    closed spec fn view(&self) -> FileView {
        FileView {
            state: AppStateView { kafka_brokers: self.brokers@, kafka_topic: self.topic@ },
            file: self.file@,
        }
    }
}

impl View for WritePending {
    type V = (FileView, Seq<u8>);

    closed spec fn view(&self) -> (FileView, Seq<u8>) {
        (
            FileView {
                state: AppStateView { kafka_brokers: self.brokers@, kafka_topic: self.topic@ },
                file: self.file@,
            },
            self.data@,
        )
    }
}

impl View for SendPending {
    type V = FileView;

    closed spec fn view(&self) -> FileView {
        FileView {
            state: AppStateView { kafka_brokers: self.brokers@, kafka_topic: self.topic@ },
            file: self.file@,
        }
    }
}

impl View for RemovePending {
    type V = (Seq<char>, ResponseView);

    closed spec fn view(&self) -> (Seq<char>, ResponseView) {
        (self.file@, self.response@)
    }
}

impl View for UploadStep {
    type V = UploadView;

    open spec fn view(&self) -> UploadView {
        match self {
            UploadStep::ReadField(pending) => UploadView::ReadField { state: pending@ },
            UploadStep::CreateFile(pending) => UploadView::CreateFile { file: pending@ },
            UploadStep::ReadChunk(pending) => UploadView::ReadChunk { file: pending@ },
            UploadStep::WriteChunk(pending) => UploadView::WriteChunk {
                file: pending@.0,
                data: pending@.1,
            },
            UploadStep::Send(pending) => UploadView::Send { file: pending@ },
            UploadStep::Remove(pending) => UploadView::Remove {
                name: pending@.0,
                response: pending@.1,
            },
            UploadStep::Done(response) => UploadView::Done { response: response@ },
        }
    }
}

/// Whether a field holds the audio: it has a file name that ends with `.mp3`.
pub open spec fn is_audio_field(field: NextFieldView) -> bool {
    field matches NextFieldView::Field(Some(name)) && MP3_SUFFIX@.is_suffix_of(name)
}

/// The name of a temporary file.
pub open spec fn temp_file_name(id: Seq<char>) -> Seq<char> {
    id + MP3_SUFFIX@
}

/// Whether a character is a digit of a hexadecimal number in lower case.
pub open spec fn is_lower_hex(c: char) -> bool {
    '0' <= c <= '9' || 'a' <= c <= 'f'
}

/// Whether a text is a random UUID (version 4, RFC 9562) with hyphens, in lower case.
pub open spec fn is_random_uuid(text: Seq<char>) -> bool {
    &&& text.len() == 36
    &&& forall|i: int|
        0 <= i < 36 ==> if i == 8 || i == 13 || i == 18 || i == 23 {
            #[trigger] text[i] == '-'
        } else {
            is_lower_hex(text[i])
        }
    &&& text[14] == '4'
    &&& text[19] == '8' || text[19] == '9' || text[19] == 'a' || text[19] == 'b'
}

/// Calls `uuid::Uuid::new_v4` and displays the result, which is a random UUID. Which
/// one it is is left open; that it differs from earlier ones is likely but not said.
/// Without random bytes from the operating system the call panics.
#[verifier::external_body]
fn new_file_id() -> (id: String)
    ensures
        is_random_uuid(id@),
{
    uuid::Uuid::new_v4().to_string()
}

/// The failure of an upload without audio.
pub open spec fn no_audio() -> AppErrorView {
    AppErrorView::UploadError("No MP3 file uploaded or file processing error."@)
}

/// The answer to an upload whose audio was sent.
pub open spec fn uploaded_response() -> ResponseView {
    ResponseView {
        status: STATUS_OK,
        fields: seq![
            ("status"@, "success"@),
            ("message"@, "Audio uploaded and sent to Kafka."@),
        ],
    }
}

/// The answer to an upload whose sending came to `result`.
pub open spec fn sent_response(result: Result<(), AppErrorView>) -> ResponseView {
    match result {
        Ok(()) => uploaded_response(),
        Err(err) => crate::response::error_response(err),
    }
}

/// The step that follows `step` when it is answered with `answer`.
pub open spec fn upload_next(step: UploadView, answer: UploadAnswer) -> UploadView {
    match (step, answer) {
        (UploadView::ReadField { state }, UploadAnswer::FieldRead { field, id }) => {
            if is_audio_field(field) {
                UploadView::CreateFile { file: FileView { state, file: temp_file_name(id) } }
            } else if field is Field {
                UploadView::ReadField { state }
            } else {
                UploadView::Done { response: crate::response::error_response(no_audio()) }
            }
        },
        (UploadView::CreateFile { file }, UploadAnswer::FileCreated { created }) => {
            match created {
                Ok(()) => UploadView::ReadChunk { file },
                Err(cause) => UploadView::Done {
                    response: crate::response::error_response(AppErrorView::Io(cause)),
                },
            }
        },
        (UploadView::ReadChunk { file }, UploadAnswer::ChunkRead { chunk }) => match chunk {
            NextChunkView::Chunk(data) => UploadView::WriteChunk { file, data },
            _ => UploadView::Send { file },
        },
        (UploadView::WriteChunk { file, .. }, UploadAnswer::ChunkWritten { written }) => {
            match written {
                Ok(()) => UploadView::ReadChunk { file },
                Err(cause) => UploadView::Remove {
                    name: file.file,
                    response: crate::response::error_response(AppErrorView::Io(cause)),
                },
            }
        },
        (UploadView::Send { file }, UploadAnswer::Sent { result }) => UploadView::Remove {
            name: file.file,
            response: sent_response(result),
        },
        (UploadView::Remove { response, .. }, UploadAnswer::Removed { .. }) => UploadView::Done {
            response,
        },
        _ => step,
    }
}

/// Starts to handle an upload.
pub fn upload_audio_handler(state: &AppState) -> (res: UploadStep)
    ensures
        res@ == (UploadView::ReadField { state: state@ }),
{
    UploadStep::ReadField(
        FieldPending { brokers: state.kafka_brokers.clone(), topic: state.kafka_topic.clone() },
    )
}

/// The `Content-Disposition` header of a field.
#[verifier::external_type_specification]
#[verifier::external_body]
pub struct ExContentDisposition(ContentDisposition);

/// The values of the `filename` parameters of a header, in order.
pub uninterp spec fn filename_parameters(header: ContentDisposition) -> Seq<Seq<char>>;

/// Calls `actix_web::http::header::ContentDisposition::get_filename`, which returns the
/// value of the first `filename` parameter, if there is one.
#[verifier::external_body]
fn get_filename(header: &ContentDisposition) -> (res: Option<&str>)
    ensures
        match res {
            Some(name) => filename_parameters(*header).len() > 0 && name@ == filename_parameters(
                *header,
            )[0],
            None => filename_parameters(*header).len() == 0,
        },
{
    header.get_filename()
}

/// The file name that a header gives.
pub open spec fn header_file_name(header: ContentDisposition) -> Option<Seq<char>> {
    if filename_parameters(header).len() > 0 {
        Some(filename_parameters(header)[0])
    } else {
        None
    }
}

impl NextField {
    /// The field with the given header.
    pub fn with_header(header: &ContentDisposition) -> (res: NextField)
        ensures
            res@ == NextFieldView::Field(header_file_name(*header)),
    {
        match get_filename(header) {
            Some(name) => NextField::Field(Some(name.to_string())),
            None => NextField::Field(None),
        }
    }

    /// Tells whether the field holds the audio.
    pub fn is_audio(&self) -> (res: bool)
        ensures
            res == is_audio_field(self@),
    {
        match self {
            NextField::Field(Some(name)) => ends_with(name.as_str(), MP3_SUFFIX),
            _ => false,
        }
    }
}

impl FieldPending {
    /// Goes on when the next field was read, or none was; where the field holds the
    /// audio, its temporary file gets a new random identifier.
    pub fn answer(self, field: NextField) -> (res: UploadStep)
        ensures
            is_audio_field(field@) ==> exists|id: Seq<char>|
                #![trigger temp_file_name(id)]
                is_random_uuid(id) && res@ == upload_next(
                    UploadView::ReadField { state: self@ },
                    UploadAnswer::FieldRead { field: field@, id },
                ),
            !is_audio_field(field@) ==> res@ == upload_next(
                UploadView::ReadField { state: self@ },
                UploadAnswer::FieldRead { field: field@, id: ""@ },
            ),
    {
        if field.is_audio() {
            let id = new_file_id();
            let ghost name = temp_file_name(id@);
            self.answer_with_id(field, id.as_str())
        } else {
            self.answer_with_id(field, "")
        }
    }

    /// Goes on when the next field was read, or none was; `id` identifies the
    /// temporary file.
    pub fn answer_with_id(self, field: NextField, id: &str) -> (res: UploadStep)
        ensures
            res@ == upload_next(
                UploadView::ReadField { state: self@ },
                UploadAnswer::FieldRead { field: field@, id: id@ },
            ),
    {
        if field.is_audio() {
            return UploadStep::CreateFile(
                CreatePending {
                    brokers: self.brokers,
                    topic: self.topic,
                    file: joined(id, MP3_SUFFIX),
                },
            );
        }
        match field {
            NextField::Field(_) => UploadStep::ReadField(self),
            NextField::End | NextField::Failed => UploadStep::Done(
                app_error_to_response(
                    &AppError::UploadError(
                        "No MP3 file uploaded or file processing error.".to_string(),
                    ),
                ),
            ),
        }
    }
}

impl CreatePending {
    /// The name of the temporary file.
    pub fn file(&self) -> (res: &str)
        ensures
            res@ == self@.file,
    {
        self.file.as_str()
    }

    /// Goes on when the temporary file was created, or could not be.
    pub fn answer(self, created: Result<(), IoCause>) -> (res: UploadStep)
        ensures
            res@ == upload_next(
                UploadView::CreateFile { file: self@ },
                UploadAnswer::FileCreated { created: crate::error::io_view(created) },
            ),
    {
        match created {
            Ok(()) => UploadStep::ReadChunk(
                ChunkPending { brokers: self.brokers, topic: self.topic, file: self.file },
            ),
            Err(cause) => UploadStep::Done(app_error_to_response(&AppError::Io(cause))),
        }
    }
}

impl ChunkPending {
    /// Goes on when the next piece of the content was read, or none was.
    pub fn answer(self, chunk: NextChunk) -> (res: UploadStep)
        ensures
            res@ == upload_next(
                UploadView::ReadChunk { file: self@ },
                UploadAnswer::ChunkRead { chunk: chunk@ },
            ),
    {
        match chunk {
            NextChunk::Chunk(data) => UploadStep::WriteChunk(
                WritePending { brokers: self.brokers, topic: self.topic, file: self.file, data },
            ),
            NextChunk::End | NextChunk::Failed => UploadStep::Send(
                SendPending { brokers: self.brokers, topic: self.topic, file: self.file },
            ),
        }
    }
}

impl WritePending {
    /// The piece of the content.
    pub fn data(&self) -> (res: &Vec<u8>)
        ensures
            res@ == self@.1,
    {
        &self.data
    }

    /// Goes on when the piece was written, or could not be.
    pub fn answer(self, written: Result<(), IoCause>) -> (res: UploadStep)
        ensures
            res@ == upload_next(
                UploadView::WriteChunk { file: self@.0, data: self@.1 },
                UploadAnswer::ChunkWritten { written: crate::error::io_view(written) },
            ),
    {
        match written {
            Ok(()) => UploadStep::ReadChunk(
                ChunkPending { brokers: self.brokers, topic: self.topic, file: self.file },
            ),
            Err(cause) => UploadStep::Remove(
                RemovePending {
                    file: self.file,
                    response: app_error_to_response(&AppError::Io(cause)),
                },
            ),
        }
    }
}

/// Returns the answer to an upload whose audio was sent.
fn make_uploaded_response() -> (res: Response)
    ensures
        res@ == uploaded_response(),
{
    let fields: Vec<(String, String)> = vec![
        ("status".to_string(), "success".to_string()),
        ("message".to_string(), "Audio uploaded and sent to Kafka.".to_string()),
    ];
    assert(fields.deep_view() =~= uploaded_response().fields);
    Response { status: STATUS_OK, fields }
}

impl SendPending {
    /// The name of the temporary file.
    pub fn file(&self) -> (res: &str)
        ensures
            res@ == self@.file,
    {
        self.file.as_str()
    }

    /// Starts to send the temporary file, which is at `path`.
    pub fn start(&self, path: &str) -> (res: SendStep)
        ensures
            res@ == (crate::send::SendView::Read {
                job: crate::send::SendJobView {
                    path: path@,
                    brokers: self@.state.kafka_brokers,
                    topic: self@.state.kafka_topic,
                },
            }),
    {
        send_audio_to_kafka(path, self.brokers.as_str(), self.topic.as_str())
    }

    /// Goes on when the sending has ended.
    pub fn answer(self, result: Result<(), AppError>) -> (res: UploadStep)
        ensures
            res@ == upload_next(
                UploadView::Send { file: self@ },
                UploadAnswer::Sent { result: crate::error::job_view(result) },
            ),
    {
        let response = match result {
            Ok(()) => make_uploaded_response(),
            Err(err) => app_error_to_response(&err),
        };
        UploadStep::Remove(RemovePending { file: self.file, response })
    }
}

impl RemovePending {
    /// The name of the temporary file.
    pub fn file(&self) -> (res: &str)
        ensures
            res@ == self@.0,
    {
        self.file.as_str()
    }

    /// Goes on when the temporary file was removed, or could not be.
    pub fn answer(self, removed: Result<(), IoCause>) -> (res: UploadStep)
        ensures
            res@ == upload_next(
                UploadView::Remove { name: self@.0, response: self@.1 },
                UploadAnswer::Removed { removed: crate::error::io_view(removed) },
            ),
    {
        UploadStep::Done(self.response)
    }
}

/// Whether `answer` is an answer to `step`.
pub open spec fn answers(step: UploadView, answer: UploadAnswer) -> bool {
    match step {
        UploadView::ReadField { .. } => answer is FieldRead,
        UploadView::CreateFile { .. } => answer is FileCreated,
        UploadView::ReadChunk { .. } => answer is ChunkRead,
        UploadView::WriteChunk { .. } => answer is ChunkWritten,
        UploadView::Send { .. } => answer is Sent,
        UploadView::Remove { .. } => answer is Removed,
        UploadView::Done { .. } => false,
    }
}

/// The step that an upload reaches with the answers that it got so far.
pub open spec fn upload_after(state: AppStateView, run: Seq<UploadAnswer>) -> UploadView
    decreases run.len(),
{
    if run.len() == 0 {
        UploadView::ReadField { state }
    } else {
        upload_next(upload_after(state, run.drop_last()), run.last())
    }
}

/// Whether each of the answers answers the step that the ones before it lead to.
pub open spec fn is_upload_run(state: AppStateView, run: Seq<UploadAnswer>) -> bool
    decreases run.len(),
{
    run.len() > 0 ==> is_upload_run(state, run.drop_last()) && answers(
        upload_after(state, run.drop_last()),
        run.last(),
    )
}

/// The temporary files that were created in a run, in order.
pub open spec fn created_files(state: AppStateView, run: Seq<UploadAnswer>) -> Seq<Seq<char>>
    decreases run.len(),
{
    if run.len() == 0 {
        Seq::empty()
    } else {
        let before = created_files(state, run.drop_last());
        match (upload_after(state, run.drop_last()), run.last()) {
            (UploadView::CreateFile { file }, UploadAnswer::FileCreated { created: Ok(()) }) => {
                before.push(file.file)
            },
            _ => before,
        }
    }
}

/// The temporary files that were asked to be removed in a run, in order.
pub open spec fn removed_files(state: AppStateView, run: Seq<UploadAnswer>) -> Seq<Seq<char>>
    decreases run.len(),
{
    if run.len() == 0 {
        Seq::empty()
    } else {
        let before = removed_files(state, run.drop_last());
        match (upload_after(state, run.drop_last()), run.last()) {
            (UploadView::Remove { name, .. }, UploadAnswer::Removed { .. }) => before.push(name),
            _ => before,
        }
    }
}

/// The content that was received in a run.
pub open spec fn received(run: Seq<UploadAnswer>) -> Seq<u8>
    decreases run.len(),
{
    if run.len() == 0 {
        Seq::empty()
    } else {
        match run.last() {
            UploadAnswer::ChunkRead { chunk: NextChunkView::Chunk(data) } => received(
                run.drop_last(),
            ) + data,
            _ => received(run.drop_last()),
        }
    }
}

/// The content that was written to the temporary file in a run.
pub open spec fn written(state: AppStateView, run: Seq<UploadAnswer>) -> Seq<u8>
    decreases run.len(),
{
    if run.len() == 0 {
        Seq::empty()
    } else {
        let before = written(state, run.drop_last());
        match (upload_after(state, run.drop_last()), run.last()) {
            (
                UploadView::WriteChunk { data, .. },
                UploadAnswer::ChunkWritten { written: Ok(()) },
            ) => before + data,
            _ => before,
        }
    }
}

/// Whether an answer says that the audio was sent.
pub open spec fn says_sent(answer: UploadAnswer) -> bool {
    answer matches UploadAnswer::Sent { result } && result is Ok
}

/// Whether the audio was sent in a run.
pub open spec fn was_sent(run: Seq<UploadAnswer>) -> bool {
    exists|i: int| 0 <= i < run.len() && says_sent(#[trigger] run[i])
}

/// Whether an answer is a field that holds the audio.
pub open spec fn brings_audio(answer: UploadAnswer) -> bool {
    answer matches UploadAnswer::FieldRead { field, .. } && is_audio_field(field)
}

/// What holds of every step that a run leads to.
spec fn run_invariant(state: AppStateView, run: Seq<UploadAnswer>) -> bool {
    let created = created_files(state, run);
    let removed = removed_files(state, run);
    match upload_after(state, run) {
        UploadView::ReadField { state: s } => {
            &&& s == state
            &&& created.len() == 0
            &&& removed.len() == 0
            &&& received(run) == written(state, run)
            &&& !was_sent(run)
            &&& forall|i: int| 0 <= i < run.len() ==> !brings_audio(#[trigger] run[i])
        },
        UploadView::CreateFile { file } => {
            &&& file.state == state
            &&& created.len() == 0
            &&& removed.len() == 0
            &&& received(run) == written(state, run)
            &&& !was_sent(run)
        },
        UploadView::ReadChunk { file } => {
            &&& file.state == state
            &&& created =~= seq![file.file]
            &&& removed.len() == 0
            &&& received(run) == written(state, run)
            &&& !was_sent(run)
        },
        UploadView::WriteChunk { file, data } => {
            &&& file.state == state
            &&& created =~= seq![file.file]
            &&& removed.len() == 0
            &&& received(run) == written(state, run) + data
            &&& !was_sent(run)
        },
        UploadView::Send { file } => {
            &&& file.state == state
            &&& created =~= seq![file.file]
            &&& removed.len() == 0
            &&& received(run) == written(state, run)
            &&& !was_sent(run)
        },
        UploadView::Remove { name, response } => {
            &&& created =~= seq![name]
            &&& removed.len() == 0
            &&& response.status == STATUS_OK <==> was_sent(run)
        },
        UploadView::Done { response } => {
            &&& created.len() <= 1
            &&& removed =~= created
            &&& response.status == STATUS_OK <==> was_sent(run)
        },
    }
}

proof fn lemma_was_sent(run: Seq<UploadAnswer>)
    requires
        run.len() > 0,
    ensures
        was_sent(run) <==> was_sent(run.drop_last()) || says_sent(run.last()),
{
    let before = run.drop_last();
    if was_sent(run) {
        let i = choose|i: int| 0 <= i < run.len() && says_sent(#[trigger] run[i]);
        if i < before.len() {
            assert(before[i] == run[i]);
        }
    }
    if was_sent(before) {
        let i = choose|i: int| 0 <= i < before.len() && says_sent(#[trigger] before[i]);
        assert(run[i] == before[i]);
    }
}

proof fn lemma_run(state: AppStateView, run: Seq<UploadAnswer>)
    requires
        is_upload_run(state, run),
    ensures
        run_invariant(state, run),
    decreases run.len(),
{
    if run.len() > 0 {
        lemma_run(state, run.drop_last());
        lemma_was_sent(run);
        if upload_after(state, run) is ReadField {
            assert forall|i: int| 0 <= i < run.len() implies !brings_audio(#[trigger] run[i]) by {
                if i < run.len() - 1 {
                    assert(run.drop_last()[i] == run[i]);
                }
            }
        }
    }
}

/// However an upload goes, at most one temporary file is created, and when the upload
/// can be answered, exactly the file that was created has been asked to be removed,
/// once; no other file ever is.
pub proof fn law_temp_file_is_removed(state: AppStateView, run: Seq<UploadAnswer>)
    requires
        is_upload_run(state, run),
    ensures
        created_files(state, run).len() <= 1,
        removed_files(state, run).len() == 0 || removed_files(state, run) == created_files(
            state,
            run,
        ),
        upload_after(state, run) is Done ==> removed_files(state, run) == created_files(
            state,
            run,
        ),
{
    lemma_run(state, run);
}

/// The file that is sent is the one that was created, all that was received has been
/// written to it, it has not been removed, and it goes to the brokers and the topic of
/// the service.
pub proof fn law_upload_sends_what_was_received(state: AppStateView, run: Seq<UploadAnswer>)
    requires
        is_upload_run(state, run),
    ensures
        upload_after(state, run) matches UploadView::Send { file } ==> {
            &&& file.state == state
            &&& created_files(state, run) == seq![file.file]
            &&& removed_files(state, run).len() == 0
            &&& written(state, run) == received(run)
        },
{
    lemma_run(state, run);
}

/// Once the content has ended, or cannot be read any further, the upload ends with the
/// answer that the sending decides, whether or not the file can be removed.
pub proof fn law_upload_ends(
    file: FileView,
    end: NextChunkView,
    result: Result<(), AppErrorView>,
    removed: Result<(), IoCauseView>,
)
    requires
        !(end is Chunk),
    ensures
        ({
            let send = upload_next(
                UploadView::ReadChunk { file },
                UploadAnswer::ChunkRead { chunk: end },
            );
            let remove = upload_next(send, UploadAnswer::Sent { result });
            let done = upload_next(remove, UploadAnswer::Removed { removed });
            &&& send == (UploadView::Send { file })
            &&& remove == (UploadView::Remove {
                name: file.file,
                response: sent_response(result),
            })
            &&& done == (UploadView::Done { response: sent_response(result) })
        }),
{
}

/// An upload is answered with success exactly where its audio was sent.
pub proof fn law_upload_succeeds(state: AppStateView, run: Seq<UploadAnswer>)
    requires
        is_upload_run(state, run),
    ensures
        upload_after(state, run) matches UploadView::Done { response } ==> (response.status
            == STATUS_OK <==> was_sent(run)),
{
    lemma_run(state, run);
}

/// Where no field holds audio, an upload ends with the refusal of the request, and no
/// file is created.
pub proof fn law_upload_without_audio(state: AppStateView, run: Seq<UploadAnswer>)
    requires
        is_upload_run(state, run),
        forall|i: int| 0 <= i < run.len() ==> !brings_audio(#[trigger] run[i]),
    ensures
        created_files(state, run).len() == 0,
        upload_after(state, run) == (UploadView::ReadField { state }) || upload_after(state, run)
            == (UploadView::Done { response: crate::response::error_response(no_audio()) }),
    decreases run.len(),
{
    if run.len() > 0 {
        let before = run.drop_last();
        assert forall|i: int| 0 <= i < before.len() implies !brings_audio(#[trigger] before[i]) by {
            assert(before[i] == run[i]);
        }
        law_upload_without_audio(state, before);
        assert(!brings_audio(run[run.len() - 1]));
    }
}

/// Once a field with audio was read, no further field is.
pub proof fn law_first_audio_field_counts(
    state: AppStateView,
    run: Seq<UploadAnswer>,
    i: int,
    j: int,
)
    requires
        is_upload_run(state, run),
        0 <= i < j < run.len(),
        brings_audio(run[i]),
    ensures
        !(run[j] is FieldRead),
    decreases run.len(),
{
    let before = run.drop_last();
    if j < before.len() {
        assert(before[i] == run[i] && before[j] == run[j]);
        law_first_audio_field_counts(state, before, i, j);
    } else {
        lemma_run(state, before);
        assert(brings_audio(before[i]));
    }
}

/// Whether a run brought a field that holds the audio.
pub open spec fn has_audio(run: Seq<UploadAnswer>) -> bool {
    exists|i: int| 0 <= i < run.len() && brings_audio(#[trigger] run[i])
}

/// Whether every sending of a run came to something that a sending can come to.
pub open spec fn sends_properly(run: Seq<UploadAnswer>) -> bool {
    forall|i: int|
        0 <= i < run.len() ==> (#[trigger] run[i] matches UploadAnswer::Sent { result }
            ==> crate::send::is_send_result(result))
}

proof fn lemma_has_audio(run: Seq<UploadAnswer>)
    requires
        run.len() > 0,
    ensures
        has_audio(run) <==> has_audio(run.drop_last()) || brings_audio(run.last()),
{
    let before = run.drop_last();
    if has_audio(run) {
        let i = choose|i: int| 0 <= i < run.len() && brings_audio(#[trigger] run[i]);
        if i < before.len() {
            assert(before[i] == run[i]);
        }
    }
    if has_audio(before) {
        let i = choose|i: int| 0 <= i < before.len() && brings_audio(#[trigger] before[i]);
        assert(run[i] == before[i]);
    }
}

/// Which statuses the steps that a run leads to can have.
proof fn lemma_status(state: AppStateView, run: Seq<UploadAnswer>)
    requires
        is_upload_run(state, run),
        sends_properly(run),
    ensures
        match upload_after(state, run) {
            UploadView::ReadField { .. } => !has_audio(run),
            UploadView::Remove { response, .. } => has_audio(run) && (response.status == STATUS_OK
                || response.status == STATUS_INTERNAL_SERVER_ERROR),
            UploadView::Done { response } => if has_audio(run) {
                response.status == STATUS_OK || response.status == STATUS_INTERNAL_SERVER_ERROR
            } else {
                response.status == STATUS_BAD_REQUEST
            },
            _ => has_audio(run),
        },
    decreases run.len(),
{
    if run.len() > 0 {
        let before = run.drop_last();
        assert forall|i: int| 0 <= i < before.len() implies (
        #[trigger] before[i] matches UploadAnswer::Sent { result }
            ==> crate::send::is_send_result(result)) by {
            assert(before[i] == run[i]);
        }
        lemma_status(state, before);
        lemma_has_audio(run);
        assert(run.last() == run[run.len() - 1]);
    }
}

/// From end to end: whatever the outside answers, an upload is refused exactly where no
/// field holds audio, is answered with success exactly where the audio was sent, and is
/// answered with an internal error otherwise.
pub proof fn law_upload_status(state: AppStateView, run: Seq<UploadAnswer>)
    requires
        is_upload_run(state, run),
        sends_properly(run),
    ensures
        upload_after(state, run) matches UploadView::Done { response } ==> {
            &&& response.status == STATUS_BAD_REQUEST <==> !has_audio(run)
            &&& response.status == STATUS_OK <==> was_sent(run)
            &&& response.status == STATUS_INTERNAL_SERVER_ERROR <==> has_audio(run) && !was_sent(
                run,
            )
        },
{
    lemma_run(state, run);
    lemma_status(state, run);
}

/// A temporary file with a random identifier has a name that ends with `.mp3`, and the
/// key of the message with its content is that name, whatever directory it lies in,
/// unless the path may start with a server or a device.
pub proof fn law_temp_file_name_is_the_key(
    dir: Seq<char>,
    id: Seq<char>,
    name: Option<Seq<char>>,
)
    requires
        is_random_uuid(id),
        !crate::text::may_have_server(dir + seq!['/'] + temp_file_name(id)),
        crate::text::names_file(dir + seq!['/'] + temp_file_name(id), name),
    ensures
        MP3_SUFFIX@.is_suffix_of(temp_file_name(id)),
        crate::send::record_key(name) == temp_file_name(id),
{
    reveal_strlit(".mp3");
    let file = temp_file_name(id);
    assert(MP3_SUFFIX@ =~= file.subrange(36, 40));
    assert forall|k: int| 0 <= k < file.len() implies !crate::text::may_separate(
        #[trigger] file[k],
    ) && file[k] != ':' by {
        if k < 36 {
            assert(file[k] == id[k]);
        }
    }
    crate::text::law_platforms_agree_on_plain_names(dir, file, name);
}

/// Every field whose file name is some text with `.mp3` behind it is taken, however long
/// that text is and whatever it holds: a temporary file is created for it, whose name is
/// the identifier with `.mp3` behind it.
pub proof fn law_mp3_field_is_taken(state: AppStateView, stem: Seq<char>, id: Seq<char>)
    ensures
        upload_next(
            UploadView::ReadField { state },
            UploadAnswer::FieldRead {
                field: NextFieldView::Field(Some(stem + seq!['.', 'm', 'p', '3'])),
                id,
            },
        ) matches UploadView::CreateFile { file } && file.state == state
            && crate::text::consists_of(file.file, id, seq!['.', 'm', 'p', '3']),
{
    reveal_strlit(".mp3");
    let suffix = seq!['.', 'm', 'p', '3'];
    let name = stem + suffix;
    assert(MP3_SUFFIX@ =~= suffix);
    assert(name.subrange(stem.len() as int, name.len() as int) =~= suffix);
}

/// Only a field whose file name ends with the characters `.mp3` is taken; any other field
/// is skipped, and the next one is read.
pub proof fn law_only_mp3_fields_are_taken(
    state: AppStateView,
    field: NextFieldView,
    id: Seq<char>,
)
    ensures
        ({
            let next = upload_next(
                UploadView::ReadField { state },
                UploadAnswer::FieldRead { field, id },
            );
            let ends_with_mp3 = {
                &&& field matches NextFieldView::Field(Some(name))
                &&& name.len() >= 4
                &&& name[name.len() - 4] == '.'
                &&& name[name.len() - 3] == 'm'
                &&& name[name.len() - 2] == 'p'
                &&& name[name.len() - 1] == '3'
            };
            &&& next is CreateFile <==> ends_with_mp3
            &&& is_audio_field(field) <==> ends_with_mp3
            &&& field is Field && !ends_with_mp3 ==> next == (UploadView::ReadField { state })
            &&& !(field is Field) ==> next is Done
        }),
{
    reveal_strlit(".mp3");
    if let NextFieldView::Field(Some(name)) = field {
        if name.len() >= 4 {
            let tail = name.subrange(name.len() - 4, name.len() as int);
            assert(tail[0] == name[name.len() - 4]);
            assert(tail[1] == name[name.len() - 3]);
            assert(tail[2] == name[name.len() - 2]);
            assert(tail[3] == name[name.len() - 1]);
            if tail[0] == '.' && tail[1] == 'm' && tail[2] == 'p' && tail[3] == '3' {
                assert(tail =~= MP3_SUFFIX@);
            }
        }
    }
}

/// Where the fields end, or cannot be read, before one is taken, the upload is refused
/// with 400.
pub proof fn law_refusal(state: AppStateView, end: NextFieldView, id: Seq<char>)
    requires
        !(end is Field),
    ensures
        upload_next(
            UploadView::ReadField { state },
            UploadAnswer::FieldRead { field: end, id },
        ) matches UploadView::Done { response } && {
            &&& response.status == 400
            &&& response.fields.len() == 1
            &&& response.fields[0].0 == "error"@
            &&& crate::text::consists_of(
                response.fields[0].1,
                "File upload error: "@,
                "No MP3 file uploaded or file processing error."@,
            )
        },
{
    crate::response::law_error_answer(no_audio());
}

/// Every piece of the content is written to the temporary file, byte for byte, and the
/// next one is read; when there are no more the file is sent.
pub proof fn law_every_byte_is_written(
    file: FileView,
    data: Seq<u8>,
    created: Result<(), IoCauseView>,
    written: Result<(), IoCauseView>,
    end: NextChunkView,
)
    requires
        created is Ok,
        written is Ok,
        !(end is Chunk),
    ensures
        ({
            let read = upload_next(
                UploadView::CreateFile { file },
                UploadAnswer::FileCreated { created },
            );
            let write = upload_next(
                read,
                UploadAnswer::ChunkRead { chunk: NextChunkView::Chunk(data) },
            );
            let again = upload_next(write, UploadAnswer::ChunkWritten { written });
            let send = upload_next(again, UploadAnswer::ChunkRead { chunk: end });
            &&& read == (UploadView::ReadChunk { file })
            &&& write matches UploadView::WriteChunk { file: target, data: piece }
            &&& target == file
            &&& piece.len() == data.len()
            &&& forall|i: int| 0 <= i < data.len() ==> #[trigger] piece[i] == data[i]
            &&& again == (UploadView::ReadChunk { file })
            &&& send == (UploadView::Send { file })
        }),
{
}

/// Where the file cannot be created or written the upload ends with 500 and the whole
/// text of the error; a file that was created is removed first.
pub proof fn law_file_failures(
    file: FileView,
    data: Seq<u8>,
    cause: IoCauseView,
    removed: Result<(), IoCauseView>,
)
    ensures
        ({
            let refused = upload_next(
                UploadView::CreateFile { file },
                UploadAnswer::FileCreated { created: Err(cause) },
            );
            let remove = upload_next(
                UploadView::WriteChunk { file, data },
                UploadAnswer::ChunkWritten { written: Err(cause) },
            );
            let done = upload_next(remove, UploadAnswer::Removed { removed });
            &&& remove matches UploadView::Remove { name, .. } && name == file.file
            &&& refused is Done
            &&& done == refused
            &&& done matches UploadView::Done { response }
            &&& response.status == 500
            &&& response.fields.len() == 1
            &&& response.fields[0].0 == "error"@
            &&& crate::text::consists_of(response.fields[0].1, "I/O error: "@, cause.text)
        }),
{
    crate::response::law_error_answer(AppErrorView::Io(cause));
}

/// An upload whose audio was sent is answered with 200 and two members, and one whose
/// audio could not be sent as its failure is; the file is removed in both cases.
pub proof fn law_answer_after_sending(
    file: FileView,
    result: Result<(), AppErrorView>,
    removed: Result<(), IoCauseView>,
)
    ensures
        ({
            let remove = upload_next(UploadView::Send { file }, UploadAnswer::Sent { result });
            let done = upload_next(remove, UploadAnswer::Removed { removed });
            &&& remove matches UploadView::Remove { name, .. } && name == file.file
            &&& done matches UploadView::Done { response }
            &&& result is Ok ==> {
                &&& response.status == 200
                &&& response.fields.len() == 2
                &&& response.fields[0].0 == "status"@
                &&& response.fields[0].1 == "success"@
                &&& response.fields[1].0 == "message"@
                &&& response.fields[1].1 == "Audio uploaded and sent to Kafka."@
            }
            &&& result matches Err(err) ==> response == crate::response::error_response(err)
        }),
{
}

/// A field has the first of the file names that its header gives, and none where the
/// header gives none.
pub proof fn law_field_of_a_header(header: &ContentDisposition, field: NextField)
    requires
        call_ensures(NextField::with_header, (header,), field),
    ensures
        filename_parameters(*header).len() == 0 ==> field matches NextField::Field(None),
        filename_parameters(*header).len() > 0 ==> (field matches NextField::Field(Some(name))
            && name@ == filename_parameters(*header)[0]),
{
}

/// The calls that take a field: one with a file name that ends with `.mp3` gets a
/// temporary file that is named by a random identifier with `.mp3` behind it.
pub proof fn law_field_calls(
    state: &AppState,
    start: UploadStep,
    name: String,
    taken: UploadStep,
    file: &str,
)
    requires
        call_ensures(upload_audio_handler, (state,), start),
        call_ensures(
            FieldPending::answer,
            (start->ReadField_0, NextField::Field(Some(name))),
            taken,
        ),
        call_ensures(CreatePending::file, (&taken->CreateFile_0,), file),
        name@.len() >= 4,
        name@[name@.len() - 4] == '.',
        name@[name@.len() - 3] == 'm',
        name@[name@.len() - 2] == 'p',
        name@[name@.len() - 1] == '3',
    ensures
        start is ReadField,
        taken is CreateFile,
        is_random_uuid(file@.take(36)),
        file@.skip(36) == seq!['.', 'm', 'p', '3'],
{
    let field = NextField::Field(Some(name))@;
    law_only_mp3_fields_are_taken(state@, field, Seq::empty());
    reveal_strlit(".mp3");
    assert(exists|id: Seq<char>|
        #![trigger temp_file_name(id)]
        is_random_uuid(id) && taken@ == upload_next(
            UploadView::ReadField { state: state@ },
            UploadAnswer::FieldRead { field, id },
        ));
    let id = choose|id: Seq<char>|
        #![trigger temp_file_name(id)]
        is_random_uuid(id) && taken@ == upload_next(
            UploadView::ReadField { state: state@ },
            UploadAnswer::FieldRead { field, id },
        );
    assert(file@.take(36) =~= id);
    assert(file@.skip(36) =~= seq!['.', 'm', 'p', '3']);
}

/// Whether a call of `is_audio` says that a field holds the audio: exactly where its file
/// name ends with the characters `.mp3`.
pub proof fn law_is_audio(field: &NextField, res: bool)
    requires
        call_ensures(NextField::is_audio, (field,), res),
    ensures
        res <==> {
            &&& *field matches NextField::Field(Some(name))
            &&& name@.len() >= 4
            &&& name@[name@.len() - 4] == '.'
            &&& name@[name@.len() - 3] == 'm'
            &&& name@[name@.len() - 2] == 'p'
            &&& name@[name@.len() - 1] == '3'
        },
{
    law_only_mp3_fields_are_taken(
        AppStateView { kafka_brokers: Seq::empty(), kafka_topic: Seq::empty() },
        field@,
        Seq::empty(),
    );
}

/// The calls of an upload with a given identifier and one piece of content that is sent:
/// the file, what is written to it, where it is sent, what is removed, and the answer.
pub proof fn law_upload_calls(
    state: &AppState,
    id: &str,
    name: String,
    data: Vec<u8>,
    path: &str,
    removed: Result<(), IoCause>,
    steps: (
        UploadStep,
        UploadStep,
        UploadStep,
        UploadStep,
        UploadStep,
        UploadStep,
        UploadStep,
        UploadStep,
    ),
    files: (&str, &str, &str),
    piece: &Vec<u8>,
    sending: SendStep,
)
    requires
        MP3_SUFFIX@.is_suffix_of(name@),
        call_ensures(upload_audio_handler, (state,), steps.0),
        call_ensures(
            FieldPending::answer_with_id,
            (steps.0->ReadField_0, NextField::Field(Some(name)), id),
            steps.1,
        ),
        call_ensures(CreatePending::file, (&steps.1->CreateFile_0,), files.0),
        call_ensures(
            CreatePending::answer,
            (steps.1->CreateFile_0, Ok::<(), IoCause>(())),
            steps.2,
        ),
        call_ensures(
            ChunkPending::answer,
            (steps.2->ReadChunk_0, NextChunk::Chunk(data)),
            steps.3,
        ),
        call_ensures(WritePending::data, (&steps.3->WriteChunk_0,), piece),
        call_ensures(
            WritePending::answer,
            (steps.3->WriteChunk_0, Ok::<(), IoCause>(())),
            steps.4,
        ),
        call_ensures(ChunkPending::answer, (steps.4->ReadChunk_0, NextChunk::End), steps.5),
        call_ensures(SendPending::file, (&steps.5->Send_0,), files.1),
        call_ensures(SendPending::start, (&steps.5->Send_0, path), sending),
        call_ensures(
            SendPending::answer,
            (steps.5->Send_0, Ok::<(), AppError>(())),
            steps.6,
        ),
        call_ensures(RemovePending::file, (&steps.6->Remove_0,), files.2),
        call_ensures(RemovePending::answer, (steps.6->Remove_0, removed), steps.7),
    ensures
        crate::text::consists_of(files.0@, id@, seq!['.', 'm', 'p', '3']),
        piece@ == data@,
        files.1@ == files.0@,
        sending@ == (crate::send::SendView::Read {
            job: crate::send::SendJobView {
                path: path@,
                brokers: state.kafka_brokers@,
                topic: state.kafka_topic@,
            },
        }),
        files.2@ == files.0@,
        steps.7 matches UploadStep::Done(response) && {
            &&& response.status == 200
            &&& response.fields@.len() == 2
            &&& response.fields@[0].0@ == "status"@
            &&& response.fields@[0].1@ == "success"@
            &&& response.fields@[1].0@ == "message"@
            &&& response.fields@[1].1@ == "Audio uploaded and sent to Kafka."@
        },
{
    reveal_strlit(".mp3");
    assert(MP3_SUFFIX@ =~= seq!['.', 'm', 'p', '3']);
    if let UploadStep::Done(response) = steps.7 {
        crate::response::law_response_model(response);
    }
}

/// The models of fields, of pieces of content and of answered uploads leave nothing out
/// and change nothing.
pub proof fn law_upload_models(name: String, data: Vec<u8>, response: Response)
    ensures
        NextField::Field(Some(name))@ == NextFieldView::Field(Some(name@)),
        NextField::Field(None)@ == NextFieldView::Field(None),
        NextField::End@ == NextFieldView::End,
        NextField::Failed@ == NextFieldView::Failed,
        NextChunk::Chunk(data)@ == NextChunkView::Chunk(data@),
        NextChunk::End@ == NextChunkView::End,
        NextChunk::Failed@ == NextChunkView::Failed,
        UploadStep::Done(response)@ == (UploadView::Done { response: response@ }),
{
}

/// The calls that take no field: a field of any other name, or of none, is skipped, and
/// without a further field the upload is refused.
pub proof fn law_other_field_calls(pending: FieldPending, field: NextField, step: UploadStep)
    requires
        call_ensures(FieldPending::answer, (pending, field), step),
        field matches NextField::Field(Some(name)) ==> !(name@.len() >= 4 && name@[name@.len() - 4]
            == '.' && name@[name@.len() - 3] == 'm' && name@[name@.len() - 2] == 'p'
            && name@[name@.len() - 1] == '3'),
    ensures
        field is Field ==> (step matches UploadStep::ReadField(next) && next@ == pending@),
        !(field is Field) ==> (step matches UploadStep::Done(response) && {
            &&& response.status == 400
            &&& response.fields@.len() == 1
            &&& response.fields@[0].0@ == "error"@
            &&& crate::text::consists_of(
                response.fields@[0].1@,
                "File upload error: "@,
                "No MP3 file uploaded or file processing error."@,
            )
        }),
{
    law_only_mp3_fields_are_taken(pending@, field@, ""@);
    if !(field is Field) {
        law_refusal(pending@, field@, ""@);
        if let UploadStep::Done(response) = step {
            crate::response::law_response_model(response);
        }
    }
}

/// The calls of an upload that fails after its field was taken: a file that was created
/// is removed, and the answer tells the whole text of what failed.
pub proof fn law_upload_failing_calls(
    creating: CreatePending,
    writing: WritePending,
    reading: ChunkPending,
    sending: SendPending,
    cause: IoCause,
    err: AppError,
    removed: Result<(), IoCause>,
    ends: (UploadStep, UploadStep, UploadStep, UploadStep, UploadStep, UploadStep),
    files: (&str, &str),
)
    requires
        call_ensures(CreatePending::answer, (creating, Err::<(), IoCause>(cause)), ends.0),
        call_ensures(WritePending::answer, (writing, Err::<(), IoCause>(cause)), ends.1),
        call_ensures(RemovePending::answer, (ends.1->Remove_0, removed), ends.2),
        call_ensures(ChunkPending::answer, (reading, NextChunk::Failed), ends.3),
        call_ensures(SendPending::file, (&sending,), files.0),
        call_ensures(SendPending::answer, (sending, Err::<(), AppError>(err)), ends.4),
        call_ensures(RemovePending::file, (&ends.4->Remove_0,), files.1),
        call_ensures(RemovePending::answer, (ends.4->Remove_0, removed), ends.5),
    ensures
        ends.0 matches UploadStep::Done(response) && {
            &&& response.status == 500
            &&& response.fields@.len() == 1
            &&& response.fields@[0].0@ == "error"@
            &&& crate::text::consists_of(
                response.fields@[0].1@,
                "I/O error: "@,
                cause.text@,
            )
        },
        ends.1 matches UploadStep::Remove(pending) && pending@.0 == writing@.0.file,
        ends.2 matches UploadStep::Done(response) && {
            &&& response.status == 500
            &&& response.fields@.len() == 1
            &&& response.fields@[0].0@ == "error"@
            &&& crate::text::consists_of(
                response.fields@[0].1@,
                "I/O error: "@,
                cause.text@,
            )
        },
        ends.3 matches UploadStep::Send(pending) && pending@ == reading@,
        ends.4 is Remove,
        files.1@ == files.0@,
        ends.5 matches UploadStep::Done(response) && response@ == crate::response::error_response(
            err@,
        ),
{
    crate::response::law_error_answer(AppErrorView::Io(cause@));
    if let UploadStep::Done(response) = ends.0 {
        crate::response::law_response_model(response);
    }
    if let UploadStep::Done(response) = ends.2 {
        crate::response::law_response_model(response);
    }
}

} // verus!
