//! The sending of an audio file to Kafka.
//!
//! A file is read, a Kafka client is created, and the content is sent to the topic in
//! one message whose key is the name of the file.

use rdkafka::config::ClientConfig;
use vstd::prelude::*;

use crate::config::producer_config;
use crate::error::{AppError, AppErrorView, IoCause, IoCauseView, KafkaCause};
use crate::text::file_name;

verus! {

/// The key of a message for a path without a file name.
pub const UNKNOWN_FILE: &'static str = "unknown_file";

/// A message for a topic.
#[derive(Debug)]
pub struct AudioRecord {
    pub topic: String,
    pub key: Vec<u8>,
    pub payload: Vec<u8>,
}

/// The model of an [`AudioRecord`].
pub struct AudioRecordView {
    pub topic: Seq<char>,
    pub key: Seq<u8>,
    pub payload: Seq<u8>,
}

impl View for AudioRecord {
    type V = AudioRecordView;

    open spec fn view(&self) -> AudioRecordView {
        AudioRecordView { topic: self.topic@, key: self.key@, payload: self.payload@ }
    }
}

/// What came of sending a message.
#[derive(Debug)]
pub enum Delivery {
    /// Kafka confirmed the message.
    Delivered,
    /// The Kafka client gave the message up.
    Rejected(KafkaCause),
    /// There was no answer in time.
    TimedOut,
}

/// The model of a [`Delivery`].
pub enum DeliveryView {
    Delivered,
    Rejected(Seq<char>),
    TimedOut,
}

impl View for Delivery {
    type V = DeliveryView;

    open spec fn view(&self) -> DeliveryView {
        match self {
            Delivery::Delivered => DeliveryView::Delivered,
            Delivery::Rejected(cause) => DeliveryView::Rejected(cause@),
            Delivery::TimedOut => DeliveryView::TimedOut,
        }
    }
}

/// A sending that waits for the content of its file.
pub struct ReadPending {
    path: String,
    brokers: String,
    topic: String,
}

/// A sending that waits for its Kafka client.
pub struct ClientPending {
    path: String,
    brokers: String,
    topic: String,
    payload: Vec<u8>,
}

/// A sending that waits for its message to be delivered.
pub struct DeliveryPending {
    record: AudioRecord,
}

/// The next step of a sending.
pub enum SendStep {
    /// The file has to be read.
    Read(ReadPending),
    /// A Kafka client has to be created.
    CreateClient(ClientPending),
    /// The message has to be sent.
    Deliver(DeliveryPending),
    /// The sending has ended.
    Done(Result<(), AppError>),
}

/// The model of what a sending starts from.
pub struct SendJobView {
    pub path: Seq<char>,
    pub brokers: Seq<char>,
    pub topic: Seq<char>,
}

/// The model of a sending that waits for its Kafka client.
pub struct ClientView {
    pub job: SendJobView,
    pub payload: Seq<u8>,
}

/// The model of a [`SendStep`].
pub enum SendView {
    Read { job: SendJobView },
    CreateClient { client: ClientView },
    Deliver { record: AudioRecordView },
    Done { result: Result<(), AppErrorView> },
}

/// The model of an answer to a step of a sending.
pub enum SendAnswer {
    /// The content of the file.
    FileRead { content: Result<Seq<u8>, IoCauseView> },
    /// Whether the client could be created, and the file name of the path.
    ClientCreated { created: Result<(), Seq<char>>, name: Option<Seq<char>> },
    /// What came of the message.
    Sent { delivery: DeliveryView },
}

impl View for ReadPending {
    type V = SendJobView;

    closed spec fn view(&self) -> SendJobView {
        SendJobView { path: self.path@, brokers: self.brokers@, topic: self.topic@ }
    }
}

impl View for ClientPending {
    type V = ClientView;

    closed spec fn view(&self) -> ClientView {
        ClientView {
            job: SendJobView { path: self.path@, brokers: self.brokers@, topic: self.topic@ },
            payload: self.payload@,
        }
    }
}

impl View for DeliveryPending {
    type V = AudioRecordView;

    closed spec fn view(&self) -> AudioRecordView {
        self.record@
    }
}

impl View for SendStep {
    type V = SendView;

    open spec fn view(&self) -> SendView {
        match self {
            SendStep::Read(pending) => SendView::Read { job: pending@ },
            SendStep::CreateClient(pending) => SendView::CreateClient { client: pending@ },
            SendStep::Deliver(pending) => SendView::Deliver { record: pending@ },
            SendStep::Done(result) => SendView::Done { result: crate::error::job_view(*result) },
        }
    }
}

/// The model of a file name, if there is one.
pub open spec fn name_view(name: Option<String>) -> Option<Seq<char>> {
    match name {
        Some(name) => Some(name@),
        None => None,
    }
}

/// The key of a message with the content of a file with the given name, or with none.
pub open spec fn record_key(name: Option<Seq<char>>) -> Seq<char> {
    match name {
        Some(name) => name,
        None => UNKNOWN_FILE@,
    }
}

/// The message with the content of the file of a job, which has the given name.
pub open spec fn audio_record(
    job: SendJobView,
    name: Option<Seq<char>>,
    payload: Seq<u8>,
) -> AudioRecordView {
    AudioRecordView { topic: job.topic, key: vstd::utf8::encode_utf8(record_key(name)), payload }
}

/// What a sending comes to when its message came to `delivery`.
pub open spec fn delivery_result(delivery: DeliveryView) -> Result<(), AppErrorView> {
    match delivery {
        DeliveryView::Delivered => Ok(()),
        DeliveryView::Rejected(text) => Err(AppErrorView::Kafka(text)),
        DeliveryView::TimedOut => Err(AppErrorView::KafkaSendTimeout),
    }
}

/// The step that follows `step` when it is answered with `answer`.
pub open spec fn send_next(step: SendView, answer: SendAnswer) -> SendView {
    match (step, answer) {
        (SendView::Read { job }, SendAnswer::FileRead { content }) => match content {
            Err(cause) => SendView::Done { result: Err(AppErrorView::Io(cause)) },
            Ok(payload) => SendView::CreateClient { client: ClientView { job, payload } },
        },
        (SendView::CreateClient { client }, SendAnswer::ClientCreated { created, name }) => {
            match created {
                Err(text) => SendView::Done { result: Err(AppErrorView::Kafka(text)) },
                Ok(()) => SendView::Deliver {
                    record: audio_record(client.job, name, client.payload),
                },
            }
        },
        (SendView::Deliver { .. }, SendAnswer::Sent { delivery }) => SendView::Done {
            result: delivery_result(delivery),
        },
        _ => step,
    }
}

/// Returns the key of a message with the content of a file with the given name, or with
/// none.
pub fn key_of_name(name: Option<String>) -> (res: String)
    ensures
        res@ == record_key(name_view(name)),
{
    match name {
        Some(name) => name,
        None => UNKNOWN_FILE.to_string(),
    }
}

/// Returns the key of a message with the content of the file at `path`: the file name of
/// the path, if it has one.
pub fn make_record_key(path: &str) -> (res: String)
    ensures
        exists|name: Option<Seq<char>>|
            crate::text::names_file(path@, name) && res@ == #[trigger] record_key(name),
        crate::text::is_slash_path(path@) ==> res@ == record_key(
            crate::text::path_file_name(path@),
        ),
{
    let name = file_name(path);
    let ghost found = record_key(name_view(name));
    proof {
        if crate::text::is_slash_path(path@) {
            crate::text::law_platforms_agree(path@, name_view(name));
        }
    }
    key_of_name(name)
}

/// Starts to send the content of the file at `path` to `topic`, by way of `brokers`.
pub fn send_audio_to_kafka(path: &str, brokers: &str, topic: &str) -> (res: SendStep)
    ensures
        res@ == (SendView::Read {
            job: SendJobView { path: path@, brokers: brokers@, topic: topic@ },
        }),
{
    SendStep::Read(
        ReadPending {
            path: path.to_string(),
            brokers: brokers.to_string(),
            topic: topic.to_string(),
        },
    )
}

impl ReadPending {
    /// The path of the file.
    pub fn path(&self) -> (res: &str)
        ensures
            res@ == self@.path,
    {
        self.path.as_str()
    }

    /// Goes on when the file was read, or could not be.
    pub fn answer(self, content: Result<Vec<u8>, IoCause>) -> (res: SendStep)
        ensures
            res@ == send_next(
                SendView::Read { job: self@ },
                SendAnswer::FileRead {
                    content: match content {
                        Ok(bytes) => Ok(bytes@),
                        Err(cause) => Err(cause@),
                    },
                },
            ),
    {
        match content {
            Err(cause) => SendStep::Done(Err(AppError::Io(cause))),
            Ok(payload) => SendStep::CreateClient(
                ClientPending {
                    path: self.path,
                    brokers: self.brokers,
                    topic: self.topic,
                    payload,
                },
            ),
        }
    }
}

impl ClientPending {
    /// The configuration of the client.
    pub fn config(&self) -> (res: ClientConfig)
        ensures
            crate::config::client_settings(res) == crate::config::producer_settings(
                self@.job.brokers,
            ),
    {
        producer_config(self.brokers.as_str())
    }

    /// Goes on when the client was created, or could not be; the message gets the file
    /// name of the path as its key.
    pub fn answer(self, created: Result<(), KafkaCause>) -> (res: SendStep)
        ensures
            exists|name: Option<Seq<char>>|
                #![trigger record_key(name)]
                crate::text::names_file(self@.job.path, name) && res@ == send_next(
                    SendView::CreateClient { client: self@ },
                    SendAnswer::ClientCreated { created: crate::error::kafka_view(created), name },
                ),
            crate::text::is_slash_path(self@.job.path) ==> res@ == send_next(
                SendView::CreateClient { client: self@ },
                SendAnswer::ClientCreated {
                    created: crate::error::kafka_view(created),
                    name: crate::text::path_file_name(self@.job.path),
                },
            ),
    {
        let name = file_name(self.path.as_str());
        let ghost key = record_key(name_view(name));
        proof {
            if crate::text::is_slash_path(self.path@) {
                crate::text::law_platforms_agree(self.path@, name_view(name));
            }
        }
        self.answer_with_name(created, name)
    }

    /// Goes on when the client was created, or could not be; `name` is the file name of
    /// the path, if it has one.
    pub fn answer_with_name(self, created: Result<(), KafkaCause>, name: Option<String>) -> (res:
        SendStep)
        ensures
            res@ == send_next(
                SendView::CreateClient { client: self@ },
                SendAnswer::ClientCreated {
                    created: crate::error::kafka_view(created),
                    name: name_view(name),
                },
            ),
    {
        match created {
            Err(cause) => SendStep::Done(Err(AppError::Kafka(cause))),
            Ok(()) => SendStep::Deliver(
                DeliveryPending {
                    record: AudioRecord {
                        topic: self.topic,
                        key: key_of_name(name).as_str().as_bytes_vec(),
                        payload: self.payload,
                    },
                },
            ),
        }
    }
}

impl DeliveryPending {
    /// The message.
    pub fn record(&self) -> (res: &AudioRecord)
        ensures
            res@ == self@,
            res.topic@ == self@.topic,
            res.key@ == self@.key,
            res.payload@ == self@.payload,
    {
        &self.record
    }

    /// Goes on when the message was delivered, or was not.
    pub fn answer(self, delivery: Delivery) -> (res: SendStep)
        ensures
            res@ == send_next(
                SendView::Deliver { record: self@ },
                SendAnswer::Sent { delivery: delivery@ },
            ),
    {
        match delivery {
            Delivery::Delivered => SendStep::Done(Ok(())),
            Delivery::Rejected(cause) => SendStep::Done(Err(AppError::Kafka(cause))),
            Delivery::TimedOut => SendStep::Done(Err(AppError::KafkaSendTimeout)),
        }
    }
}

/// What a sending with the given answers comes to.
pub open spec fn send_result(
    content: Result<Seq<u8>, IoCauseView>,
    created: Result<(), Seq<char>>,
    delivery: DeliveryView,
) -> Result<(), AppErrorView> {
    match (content, created) {
        (Err(cause), _) => Err(AppErrorView::Io(cause)),
        (Ok(_), Err(text)) => Err(AppErrorView::Kafka(text)),
        (Ok(_), Ok(())) => delivery_result(delivery),
    }
}

/// Whether a sending can come to `result`.
pub open spec fn is_send_result(result: Result<(), AppErrorView>) -> bool {
    exists|
        content: Result<Seq<u8>, IoCauseView>,
        created: Result<(), Seq<char>>,
        delivery: DeliveryView,
    | #[trigger] send_result(content, created, delivery) == result
}

/// A sending whose file is read and whose client is created sends exactly the content
/// of the file, under the file's name, to its topic. Every sending ends with the
/// result of the answers, and stops at the first failure.
pub proof fn law_send_ends(
    job: SendJobView,
    content: Result<Seq<u8>, IoCauseView>,
    created: Result<(), Seq<char>>,
    name: Option<Seq<char>>,
    delivery: DeliveryView,
)
    ensures
        ({
            let opened = send_next(SendView::Read { job }, SendAnswer::FileRead { content });
            let ready = send_next(opened, SendAnswer::ClientCreated { created, name });
            let end = send_next(ready, SendAnswer::Sent { delivery });
            &&& content is Err ==> opened is Done
            &&& created is Err ==> ready is Done
            &&& content is Ok && created is Ok ==> ready == (SendView::Deliver {
                record: audio_record(job, name, content->Ok_0),
            })
            &&& end == (SendView::Done { result: send_result(content, created, delivery) })
        }),
{
}

/// A sending succeeds exactly where the file is read, the client is created and the
/// message is delivered.
pub proof fn law_send_succeeds(
    content: Result<Seq<u8>, IoCauseView>,
    created: Result<(), Seq<char>>,
    delivery: DeliveryView,
)
    ensures
        send_result(content, created, delivery) is Ok <==> content is Ok && created is Ok
            && delivery is Delivered,
{
}

/// A message holds every byte of the file and nothing else, goes to the topic of the job,
/// and has the name of the file as its key, or `unknown_file` where there is none. The
/// client is the one for the brokers of the job.
pub proof fn law_whole_file_is_sent(
    job: SendJobView,
    content: Seq<u8>,
    name: Option<Seq<char>>,
)
    ensures
        ({
            let opened = send_next(
                SendView::Read { job },
                SendAnswer::FileRead { content: Ok(content) },
            );
            let ready = send_next(opened, SendAnswer::ClientCreated { created: Ok(()), name });
            &&& opened matches SendView::CreateClient { client }
            &&& client.job.path == job.path
            &&& client.job.brokers == job.brokers
            &&& client.job.topic == job.topic
            &&& client.payload == content
            &&& ready matches SendView::Deliver { record }
            &&& record.payload.len() == content.len()
            &&& forall|i: int| 0 <= i < content.len() ==> #[trigger] record.payload[i] == content[i]
            &&& record.topic == job.topic
            &&& name matches Some(file) ==> vstd::utf8::decode_utf8(record.key) == file
            &&& name is None ==> vstd::utf8::decode_utf8(record.key) == "unknown_file"@
            &&& vstd::utf8::valid_utf8(record.key)
        }),
{
    let key = match name {
        Some(file) => file,
        None => "unknown_file"@,
    };
    vstd::utf8::encode_utf8_valid_utf8(key);
    vstd::utf8::encode_utf8_decode_utf8(key);
}

/// What is wrong with a sending is handed on unchanged, and a message that is delivered is
/// a success.
pub proof fn law_send_tells_why(
    job: SendJobView,
    record: AudioRecordView,
    client: ClientView,
    name: Option<Seq<char>>,
    io: IoCauseView,
    text: Seq<char>,
)
    ensures
        send_next(SendView::Read { job }, SendAnswer::FileRead { content: Err(io) }) == (
        SendView::Done { result: Err(AppErrorView::Io(io)) }),
        send_next(
            SendView::CreateClient { client },
            SendAnswer::ClientCreated { created: Err(text), name },
        ) == (SendView::Done { result: Err(AppErrorView::Kafka(text)) }),
        send_next(
            SendView::Deliver { record },
            SendAnswer::Sent { delivery: DeliveryView::Rejected(text) },
        ) == (SendView::Done { result: Err(AppErrorView::Kafka(text)) }),
        send_next(
            SendView::Deliver { record },
            SendAnswer::Sent { delivery: DeliveryView::TimedOut },
        ) == (SendView::Done { result: Err(AppErrorView::KafkaSendTimeout) }),
        send_next(
            SendView::Deliver { record },
            SendAnswer::Sent { delivery: DeliveryView::Delivered },
        ) matches SendView::Done { result } && result is Ok,
{
}

/// Messages for different files, or for different names or topics, differ: nothing of
/// what is to be sent is lost.
pub proof fn law_messages_differ(
    job: SendJobView,
    other_job: SendJobView,
    name: Seq<char>,
    other_name: Seq<char>,
    payload: Seq<u8>,
    other_payload: Seq<u8>,
)
    requires
        audio_record(job, Some(name), payload) == audio_record(
            other_job,
            Some(other_name),
            other_payload,
        ),
    ensures
        job.topic == other_job.topic,
        name == other_name,
        payload == other_payload,
{
    vstd::utf8::encode_utf8_decode_utf8(name);
    vstd::utf8::encode_utf8_decode_utf8(other_name);
}

/// The calls of a sending whose file is read and whose client is created: which file is
/// read, how the client is configured, and the fields of the message.
pub proof fn law_send_calls(
    ask: (&str, &str, &str),
    content: Vec<u8>,
    name: Option<String>,
    start: SendStep,
    path: &str,
    opened: SendStep,
    config: ClientConfig,
    ready: SendStep,
    record: &AudioRecord,
)
    requires
        call_ensures(send_audio_to_kafka, ask, start),
        call_ensures(ReadPending::path, (&start->Read_0,), path),
        call_ensures(
            ReadPending::answer,
            (start->Read_0, Ok::<Vec<u8>, IoCause>(content)),
            opened,
        ),
        call_ensures(ClientPending::config, (&opened->CreateClient_0,), config),
        call_ensures(
            ClientPending::answer_with_name,
            (opened->CreateClient_0, Ok::<(), KafkaCause>(()), name),
            ready,
        ),
        call_ensures(DeliveryPending::record, (&ready->Deliver_0,), record),
    ensures
        start is Read && opened is CreateClient && ready is Deliver,
        path@ == ask.0@,
        crate::config::client_settings(config).contains_key("bootstrap.servers"@),
        crate::config::client_settings(config)["bootstrap.servers"@] == ask.1@,
        record.topic@ == ask.2@,
        record.payload@ == content@,
        name matches Some(file) ==> vstd::utf8::decode_utf8(record.key@) == file@,
        name is None ==> vstd::utf8::decode_utf8(record.key@) == "unknown_file"@,
{
    let job = SendJobView { path: ask.0@, brokers: ask.1@, topic: ask.2@ };
    law_whole_file_is_sent(job, content@, name_view(name));
    crate::config::law_producer_settings(ask.1@, Seq::empty());
    assert(record.payload@ =~= content@);
}

/// The same where the name is that of the path: on a path that every platform takes
/// apart at `/` alone, the key is its file name.
pub proof fn law_send_calls_with_the_name_of_the_path(
    ask: (&str, &str, &str),
    content: Vec<u8>,
    start: SendStep,
    opened: SendStep,
    ready: SendStep,
    record: &AudioRecord,
)
    requires
        call_ensures(send_audio_to_kafka, ask, start),
        call_ensures(
            ReadPending::answer,
            (start->Read_0, Ok::<Vec<u8>, IoCause>(content)),
            opened,
        ),
        call_ensures(
            ClientPending::answer,
            (opened->CreateClient_0, Ok::<(), KafkaCause>(())),
            ready,
        ),
        call_ensures(DeliveryPending::record, (&ready->Deliver_0,), record),
    ensures
        ready is Deliver,
        record.topic@ == ask.2@,
        record.payload@ == content@,
        crate::text::is_slash_path(ask.0@) ==> vstd::utf8::decode_utf8(record.key@) == (
        match crate::text::path_file_name(ask.0@) {
            Some(file) => file,
            None => "unknown_file"@,
        }),
{
    let key = match crate::text::path_file_name(ask.0@) {
        Some(file) => file,
        None => "unknown_file"@,
    };
    vstd::utf8::encode_utf8_decode_utf8(key);
}

/// How a sending ends, by the calls that end it.
pub proof fn law_send_ending_calls(
    read: ReadPending,
    client: ClientPending,
    pending: DeliveryPending,
    delivery: Delivery,
    io: IoCause,
    kafka: KafkaCause,
    name: Option<String>,
    ends: (SendStep, SendStep, SendStep),
)
    requires
        call_ensures(ReadPending::answer, (read, Err::<Vec<u8>, IoCause>(io)), ends.0),
        call_ensures(
            ClientPending::answer_with_name,
            (client, Err::<(), KafkaCause>(kafka), name),
            ends.1,
        ),
        call_ensures(DeliveryPending::answer, (pending, delivery), ends.2),
    ensures
        ends.0 matches SendStep::Done(Err(AppError::Io(cause))) && cause.kind == io.kind
            && cause.text@ == io.text@,
        ends.1 matches SendStep::Done(Err(AppError::Kafka(cause))) && cause.text@ == kafka.text@,
        match delivery {
            Delivery::Delivered => ends.2 matches SendStep::Done(result) && result is Ok,
            Delivery::Rejected(why) => ends.2 matches SendStep::Done(Err(AppError::Kafka(cause)))
                && cause.text@ == why.text@,
            Delivery::TimedOut => ends.2 matches SendStep::Done(Err(AppError::KafkaSendTimeout)),
        },
{
    lemma_ended(ends.0);
    lemma_ended(ends.1);
    lemma_ended(ends.2);
}

/// What the model of an ended sending tells of the step.
proof fn lemma_ended(step: SendStep)
    ensures
        step@ matches SendView::Done { result } ==> {
            &&& step matches SendStep::Done(outcome)
            &&& result == crate::error::job_view(outcome)
        },
{
}

/// A key is the name of the file itself, or `unknown_file` where there is none.
pub proof fn law_key(name: Option<String>, key: String)
    requires
        call_ensures(key_of_name, (name,), key),
    ensures
        name matches Some(file) ==> key@ == file@,
        name is None ==> key@ == "unknown_file"@,
{
}

/// The models of messages and deliveries leave nothing out and change nothing.
pub proof fn law_send_models(record: AudioRecord, delivery: Delivery, name: String)
    ensures
        record@.topic == record.topic@,
        record@.key == record.key@,
        record@.payload == record.payload@,
        match delivery {
            Delivery::Delivered => delivery@ == DeliveryView::Delivered,
            Delivery::Rejected(cause) => delivery@ == DeliveryView::Rejected(cause@),
            Delivery::TimedOut => delivery@ == DeliveryView::TimedOut,
        },
        name_view(Some(name)) == Some(name@),
        name_view(None) is None,
{
}

/// The key for a path that ends behind a `/` with a plain name is that name, whatever
/// stands before it, unless the path may start with a server or a device.
pub proof fn law_record_key_of_a_path(path: &str, dir: Seq<char>, file: Seq<char>, key: String)
    requires
        call_ensures(make_record_key, (path,), key),
        path@ == dir + seq!['/'] + file,
        file.len() > 0,
        forall|i: int|
            0 <= i < file.len() ==> !crate::text::may_separate(#[trigger] file[i]) && file[i]
                != ':',
        file != seq!['.'],
        file != seq!['.', '.'],
        !crate::text::may_have_server(path@),
    ensures
        key@ == file,
{
    let name = choose|name: Option<Seq<char>>|
        crate::text::names_file(path@, name) && key@ == #[trigger] record_key(name);
    crate::text::law_platforms_agree_on_plain_names(dir, file, name);
}

} // verus!
