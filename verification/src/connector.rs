use crate::config::Config;
use vstd::prelude::*;
use vstd::string::*;

verus! {

/// The message that the broker publishes for a client that vanishes without leaving.
#[derive(Clone, Debug, PartialEq, Eq)]
pub struct LastWill {
    pub topic: String,
    pub payload: String,
}

/// What a client hands to the broker when it signs on, as plain values.
///
/// * `server_uri`: the address of the broker
/// * `client_id`: the identity under which the client signs on
/// * `keep_alive`: how long, in milliseconds, the connection may stay silent
/// * `clean_session`: whether the broker forgets the previous session of the client
/// * `user_name`, `password`: the credentials
/// * `connect_timeout`: how long, in milliseconds, the attempt to connect may take
/// * `will`: the last will of the client, if it declares one
#[derive(Clone, Debug, PartialEq, Eq)]
pub struct ConnectionSettings {
    pub server_uri: String,
    pub client_id: String,
    pub keep_alive: u64,
    pub clean_session: bool,
    pub user_name: String,
    pub password: String,
    pub connect_timeout: u64,
    pub will: Option<LastWill>,
}

/// Connection settings with every text taken as its characters.
pub struct SettingsView {
    pub server_uri: Seq<char>,
    pub client_id: Seq<char>,
    pub keep_alive: u64,
    pub clean_session: bool,
    pub user_name: Seq<char>,
    pub password: Seq<char>,
    pub connect_timeout: u64,
    pub will: Option<(Seq<char>, Seq<char>)>,
}

impl View for ConnectionSettings {
    type V = SettingsView;

    open spec fn view(&self) -> SettingsView {
        SettingsView {
            server_uri: self.server_uri@,
            client_id: self.client_id@,
            keep_alive: self.keep_alive,
            clean_session: self.clean_session,
            user_name: self.user_name@,
            password: self.password@,
            connect_timeout: self.connect_timeout,
            will: match self.will {
                Some(will) => Some((will.topic@, will.payload@)),
                None => None,
            },
        }
    }
}

/// The settings that `config` gives to a client that signs on as `client_id` and declares
/// `will`.
pub open spec fn settings_of(
    config: &Config,
    client_id: Seq<char>,
    will: Option<(Seq<char>, Seq<char>)>,
) -> SettingsView {
    SettingsView {
        server_uri: config@.broker,
        client_id,
        keep_alive: config@.keep_alive,
        clean_session: config@.clean_session,
        user_name: config@.username,
        password: config@.password,
        connect_timeout: config@.timeout,
        will,
    }
}

/// The settings with which the publishing actor signs on: those of the configuration, under
/// the publisher's identity, without a last will.
pub fn publisher_settings(config: &Config) -> (r: ConnectionSettings)
    ensures
        r@ == settings_of(config, config@.publisher_id, None),
{
    ConnectionSettings {
        server_uri: config.broker.clone(),
        client_id: config.publisher_connection.id.clone(),
        keep_alive: config.client.keep_alive,
        clean_session: config.client.clean_session,
        user_name: config.creds.username.clone(),
        password: config.creds.password.clone(),
        connect_timeout: config.client.timeout,
        will: None,
    }
}

/// The settings with which the subscribing actor signs on: those of the configuration,
/// under the subscriber's identity, with the last will that tells of a lost consumer.
pub fn subscriber_settings(config: &Config) -> (r: ConnectionSettings)
    ensures
        r@ == settings_of(
            config,
            config@.subscriber_id,
            Some(("test"@, "Consumer lost connection"@)),
        ),
{
    ConnectionSettings {
        server_uri: config.broker.clone(),
        client_id: config.subscriber_connection.id.clone(),
        keep_alive: config.client.keep_alive,
        clean_session: config.client.clean_session,
        user_name: config.creds.username.clone(),
        password: config.creds.password.clone(),
        connect_timeout: config.client.timeout,
        will: Some(
            LastWill {
                topic: String::from_str("test"),
                payload: String::from_str("Consumer lost connection"),
            },
        ),
    }
}

} // verus!
