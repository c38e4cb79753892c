//! The settings that the service is started with.

use vstd::prelude::*;

verus! {

/// Where the relational backend is reached.
#[derive(Debug)]
pub struct DatabaseConfiguration {
    pub connection_string: String,
}

/// How the message broker is reached.
#[derive(Debug)]
pub struct KafkaConfiguration {
    pub broker: String,
    pub username: Option<String>,
    pub password: Option<String>,
    pub group_id: String,
}

/// The resolved settings. The database is required; the broker and the
/// port are optional and have defaults.
#[derive(Debug)]
pub struct Config {
    database: DatabaseConfiguration,
    messaging: Option<KafkaConfiguration>,
    app_port: Option<u16>,
}

/// The port that is served where none is configured.
pub const DEFAULT_APP_PORT: u16 = 3000;

/// The broker that is used where none is configured.
pub open spec fn default_kafka_broker() -> Seq<char> {
    "localhost:9092"@
}

/// The consumer group that is used where none is configured.
pub open spec fn default_kafka_group_id() -> Seq<char> {
    "default_group"@
}

/// The text of an optional string.
pub open spec fn text_of(value: Option<String>) -> Option<Seq<char>> {
    match value {
        Some(text) => Some(text@),
        None => None,
    }
}

fn copy_of(value: &Option<String>) -> (copy: Option<String>)
    ensures
        text_of(copy) == text_of(*value),
{
    match value {
        Some(text) => Some(text.clone()),
        None => None,
    }
}

impl Config {
    pub closed spec fn spec_database(self) -> DatabaseConfiguration {
        self.database
    }

    pub closed spec fn spec_messaging(self) -> Option<KafkaConfiguration> {
        self.messaging
    }

    pub closed spec fn spec_app_port(self) -> Option<u16> {
        self.app_port
    }

    /// Settings made of their three parts.
    pub fn new(
        database: DatabaseConfiguration,
        messaging: Option<KafkaConfiguration>,
        app_port: Option<u16>,
    ) -> (config: Config)
        ensures
            config.spec_database() == database,
            config.spec_messaging() == messaging,
            config.spec_app_port() == app_port,
    {
        Config { database, messaging, app_port }
    }

    pub fn connection_string(&self) -> (text: String)
        ensures
            text@ == self.spec_database().connection_string@,
    {
        self.database.connection_string.clone()
    }

    /// The configured broker, or `localhost:9092`.
    pub fn kafka_broker(&self) -> (text: String)
        ensures
            text@ == match self.spec_messaging() {
                Some(kafka) => kafka.broker@,
                None => default_kafka_broker(),
            },
    {
        match &self.messaging {
            Some(kafka) => kafka.broker.clone(),
            None => String::from_str("localhost:9092"),
        }
    }

    /// The configured user name, if the broker is configured with one.
    pub fn kafka_username(&self) -> (text: Option<String>)
        ensures
            text_of(text) == match self.spec_messaging() {
                Some(kafka) => text_of(kafka.username),
                None => None,
            },
    {
        match &self.messaging {
            Some(kafka) => copy_of(&kafka.username),
            None => None,
        }
    }

    /// The configured password, if the broker is configured with one.
    pub fn kafka_password(&self) -> (text: Option<String>)
        ensures
            text_of(text) == match self.spec_messaging() {
                Some(kafka) => text_of(kafka.password),
                None => None,
            },
    {
        match &self.messaging {
            Some(kafka) => copy_of(&kafka.password),
            None => None,
        }
    }

    /// The configured consumer group, or `default_group`.
    pub fn kafka_group_id(&self) -> (text: String)
        ensures
            text@ == match self.spec_messaging() {
                Some(kafka) => kafka.group_id@,
                None => default_kafka_group_id(),
            },
    {
        match &self.messaging {
            Some(kafka) => kafka.group_id.clone(),
            None => String::from_str("default_group"),
        }
    }

    /// The configured port, or 3000.
    pub fn app_port(&self) -> (port: u16)
        ensures
            port == match self.spec_app_port() {
                Some(configured) => configured,
                None => DEFAULT_APP_PORT,
            },
    {
        match self.app_port {
            Some(configured) => configured,
            None => DEFAULT_APP_PORT,
        }
    }
}

} // verus!
