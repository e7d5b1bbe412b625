//! The settings of the service and of its Kafka client.

use rdkafka::config::ClientConfig;
use vstd::prelude::*;

verus! {

/// The brokers that are used where none are configured.
pub const DEFAULT_BROKERS: &'static str = "localhost:9092";

/// The topic that is used where none is configured.
pub const DEFAULT_TOPIC: &'static str = "youtube_audio";

/// The environment variable that names the brokers.
pub const BROKERS_VARIABLE: &'static str = "KAFKA_BROKERS";

/// The environment variable that names the topic.
pub const TOPIC_VARIABLE: &'static str = "KAFKA_TOPIC";

/// The address that the service listens on.
pub const LISTEN_ADDRESS: &'static str = "127.0.0.1";

/// The port that the service listens on.
pub const LISTEN_PORT: u16 = 8080;

/// The route of requests to process a video.
pub const PROCESS_ROUTE: &'static str = "/process_youtube_url";

/// The route of uploads.
pub const UPLOAD_ROUTE: &'static str = "/upload_audio";

/// How long the service waits for the confirmation of a message.
pub const SEND_TIMEOUT_SECS: u64 = 5;

/// How long the service waits for room in the queue of the Kafka client.
pub const QUEUE_TIMEOUT_SECS: u64 = 0;

/// The Kafka brokers and the topic that audio is sent to.
#[derive(Clone, Debug)]
pub struct AppState {
    pub kafka_brokers: String,
    pub kafka_topic: String,
}

/// The model of an [`AppState`].
pub struct AppStateView {
    pub kafka_brokers: Seq<char>,
    pub kafka_topic: Seq<char>,
}

impl View for AppState {
    type V = AppStateView;

    open spec fn view(&self) -> AppStateView {
        AppStateView { kafka_brokers: self.kafka_brokers@, kafka_topic: self.kafka_topic@ }
    }
}

impl AppState {
    /// The state for the configured brokers and topic, with the default in place of
    /// each one that is not configured.
    pub fn new(brokers: Option<String>, topic: Option<String>) -> (res: AppState)
        ensures
            res@.kafka_brokers == (match brokers {
                Some(value) => value@,
                None => DEFAULT_BROKERS@,
            }),
            res@.kafka_topic == (match topic {
                Some(value) => value@,
                None => DEFAULT_TOPIC@,
            }),
    {
        AppState {
            kafka_brokers: match brokers {
                Some(value) => value,
                None => DEFAULT_BROKERS.to_string(),
            },
            kafka_topic: match topic {
                Some(value) => value,
                None => DEFAULT_TOPIC.to_string(),
            },
        }
    }
}

/// The configuration of a Kafka client.
#[verifier::external_type_specification]
#[verifier::external_body]
pub struct ExClientConfig(ClientConfig);

/// The parameters that are set in a configuration of a Kafka client.
pub uninterp spec fn client_settings(config: ClientConfig) -> Map<Seq<char>, Seq<char>>;

/// Calls `rdkafka::config::ClientConfig::new`: no parameter is set in a new
/// configuration. Nothing is said of its log level, which follows the global one.
#[verifier::external_body]
fn new_client_config() -> (config: ClientConfig)
    ensures
        client_settings(config) =~= Map::empty(),
{
    ClientConfig::new()
}

/// Calls `rdkafka::config::ClientConfig::set`: the parameter has the value
/// afterwards, whether or not it had one before, and no other parameter changes.
#[verifier::external_body]
fn set_client_setting(config: &mut ClientConfig, key: &str, value: &str)
    ensures
        client_settings(*final(config)) == client_settings(*old(config)).insert(key@, value@),
{
    config.set(key, value);
}

/// The parameters of the client that sends audio: the brokers that it starts from,
/// and how many milliseconds a message may take.
pub open spec fn producer_settings(brokers: Seq<char>) -> Map<Seq<char>, Seq<char>> {
    map!["bootstrap.servers"@ => brokers, "message.timeout.ms"@ => "5000"@]
}

/// The configuration of the client that sends audio.
pub fn producer_config(brokers: &str) -> (config: ClientConfig)
    ensures
        client_settings(config) == producer_settings(brokers@),
{
    let mut config = new_client_config();
    set_client_setting(&mut config, "bootstrap.servers", brokers);
    set_client_setting(&mut config, "message.timeout.ms", "5000");
    config
}

/// A client for `brokers` has exactly two parameters: it starts from these brokers, and
/// gives a message up after five seconds.
pub proof fn law_producer_settings(brokers: Seq<char>, key: Seq<char>)
    ensures
        producer_settings(brokers).contains_key("bootstrap.servers"@),
        producer_settings(brokers)["bootstrap.servers"@] == brokers,
        producer_settings(brokers).contains_key("message.timeout.ms"@),
        producer_settings(brokers)["message.timeout.ms"@] == "5000"@,
        key != "bootstrap.servers"@ && key != "message.timeout.ms"@ ==> !producer_settings(
            brokers,
        ).contains_key(key),
{
    reveal_strlit("bootstrap.servers");
    reveal_strlit("message.timeout.ms");
    assert("bootstrap.servers"@.len() != "message.timeout.ms"@.len());
}

/// The same of a call of `producer_config`.
pub proof fn law_producer_config(brokers: &str, config: ClientConfig, key: Seq<char>)
    requires
        call_ensures(producer_config, (brokers,), config),
    ensures
        client_settings(config).contains_key("bootstrap.servers"@),
        client_settings(config)["bootstrap.servers"@] == brokers@,
        client_settings(config).contains_key("message.timeout.ms"@),
        client_settings(config)["message.timeout.ms"@] == "5000"@,
        key != "bootstrap.servers"@ && key != "message.timeout.ms"@ ==> !client_settings(
            config,
        ).contains_key(key),
{
    law_producer_settings(brokers@, key);
}

/// A state holds what is configured, all of it, and a default where nothing is.
pub proof fn law_new_state(brokers: Option<String>, topic: Option<String>, state: AppState)
    requires
        call_ensures(AppState::new, (brokers, topic), state),
    ensures
        state.kafka_brokers@ == (match brokers {
            Some(value) => value@,
            None => "localhost:9092"@,
        }),
        state.kafka_topic@ == (match topic {
            Some(value) => value@,
            None => "youtube_audio"@,
        }),
{
}

/// The model of a state leaves nothing out and changes nothing.
pub proof fn law_state_model(state: AppState)
    ensures
        state@.kafka_brokers == state.kafka_brokers@,
        state@.kafka_topic == state.kafka_topic@,
{
}

/// Where the service listens, what it is configured by, and how long it waits.
pub proof fn law_service_settings()
    ensures
        BROKERS_VARIABLE@ == "KAFKA_BROKERS"@,
        TOPIC_VARIABLE@ == "KAFKA_TOPIC"@,
        DEFAULT_BROKERS@ == "localhost:9092"@,
        DEFAULT_TOPIC@ == "youtube_audio"@,
        LISTEN_ADDRESS@ == "127.0.0.1"@,
        LISTEN_PORT == 8080,
        PROCESS_ROUTE@ == "/process_youtube_url"@,
        UPLOAD_ROUTE@ == "/upload_audio"@,
        SEND_TIMEOUT_SECS == 5,
        QUEUE_TIMEOUT_SECS == 0,
{
}

} // verus!
