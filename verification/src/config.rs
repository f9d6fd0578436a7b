use crate::decimal::{parse_i32, parse_u64, parsed_i32, parsed_u64};
use crate::exceptions::{ConfigDefect, ConfigPropertiesError};
use crate::pattern::{pattern_pieces, split};
use crate::text::{parse_bool, parsed_bool, same_text};
use vstd::prelude::*;
use vstd::string::*;

verus! {

/// The credentials with which a client signs on to the broker.
#[derive(Clone, Debug, PartialEq, Eq)]
pub struct Credentials {
    pub username: String,
    pub password: String,
}

/// What every client of the broker is set up with.
///
/// * `keep_alive`: how long, in milliseconds, a connection may stay silent
/// * `timeout`: how long, in milliseconds, a connection attempt may take
/// * `clean_session`: whether the broker forgets the previous session of the client
#[derive(Clone, Debug, PartialEq, Eq)]
pub struct Client {
    pub keep_alive: u64,
    pub timeout: u64,
    pub clean_session: bool,
}

/// What the subscribing actor is set up with.
///
/// * `id`: the identity under which it signs on
/// * `retries`: how often it tries to reconnect after the connection was lost
/// * `retry_duration`: how long, in milliseconds, it waits before each such attempt
/// * `topics`: the topics, or topic templates, that it subscribes to
#[derive(Clone, Debug, PartialEq, Eq)]
pub struct SubscriberConnection {
    pub id: String,
    pub retries: u64,
    pub retry_duration: u64,
    pub topics: Vec<String>,
}

/// What the publishing actor is set up with.
///
/// * `id`: the identity under which it signs on
/// * `topics`: the topics, or topic templates, that it publishes to
/// * `message_quantity`: how many payload messages make up one burst
#[derive(Clone, Debug, PartialEq, Eq)]
pub struct PublisherConnection {
    pub id: String,
    pub topics: Vec<String>,
    pub message_quantity: i32,
}

/// The configuration of a run, read once and never changed.
#[derive(Clone, Debug, PartialEq, Eq)]
pub struct Config {
    pub broker: String,
    pub creds: Credentials,
    pub client: Client,
    pub subscriber_connection: SubscriberConnection,
    pub publisher_connection: PublisherConnection,
}

/// A configuration with every text taken as its characters.
pub struct ConfigView {
    pub broker: Seq<char>,
    pub username: Seq<char>,
    pub password: Seq<char>,
    pub keep_alive: u64,
    pub timeout: u64,
    pub clean_session: bool,
    pub subscriber_id: Seq<char>,
    pub retries: u64,
    pub retry_duration: u64,
    pub subscriber_topics: Seq<Seq<char>>,
    pub publisher_id: Seq<char>,
    pub publisher_topics: Seq<Seq<char>>,
    pub message_quantity: i32,
}

impl View for Config {
    type V = ConfigView;

    open spec fn view(&self) -> ConfigView {
        ConfigView {
            broker: self.broker@,
            username: self.creds.username@,
            password: self.creds.password@,
            keep_alive: self.client.keep_alive,
            timeout: self.client.timeout,
            clean_session: self.client.clean_session,
            subscriber_id: self.subscriber_connection.id@,
            retries: self.subscriber_connection.retries,
            retry_duration: self.subscriber_connection.retry_duration,
            subscriber_topics: self.subscriber_connection.topics.deep_view(),
            publisher_id: self.publisher_connection.id@,
            publisher_topics: self.publisher_connection.topics.deep_view(),
            message_quantity: self.publisher_connection.message_quantity,
        }
    }
}

/// The properties of a configuration: keys with their values, each as plain characters.
pub type Properties = Map<Seq<char>, Seq<char>>;

/// What a property's value has to be read as.
#[derive(Clone, Copy, Debug, PartialEq, Eq, Structural)]
pub enum PropertyKind {
    /// Any text.
    Text,
    /// A `u64`.
    Natural,
    /// An `i32`.
    Count,
    /// `true` or `false`.
    Flag,
    /// A list of texts, parted by commas.
    List,
}

/// The regular expression that parts the items of a list: a comma, and one white-space
/// character after it if there is one.
pub open spec fn list_separator() -> Seq<char> {
    seq![',', '(', '\\', 's', ')', '?']
}

/// The value that a list of pairs holds for `key`: that of the first pair with this key.
pub open spec fn lookup(pairs: Seq<(Seq<char>, Seq<char>)>, key: Seq<char>) -> Option<Seq<char>>
    decreases pairs.len(),
{
    if pairs.len() == 0 {
        None
    } else if pairs[0].0 == key {
        Some(pairs[0].1)
    } else {
        lookup(pairs.skip(1), key)
    }
}

/// The properties that a list of pairs writes down. Where a key stands twice, its first
/// value counts.
pub open spec fn entries(pairs: Seq<(Seq<char>, Seq<char>)>) -> Properties {
    Map::new(
        |key: Seq<char>| lookup(pairs, key) is Some,
        |key: Seq<char>| lookup(pairs, key)->0,
    )
}

/// Whether `value` can be read as `kind` asks.
pub open spec fn readable(value: Seq<char>, kind: PropertyKind) -> bool {
    match kind {
        PropertyKind::Text => true,
        PropertyKind::Natural => parsed_u64(value) is Some,
        PropertyKind::Count => parsed_i32(value) is Some,
        PropertyKind::Flag => parsed_bool(value) is Some,
        PropertyKind::List => pattern_pieces(list_separator(), value) is Some,
    }
}

/// What is wrong with the property `key`, if anything: an empty key is invalid, a key
/// without a value is missing, and a value that cannot be read as `kind` is invalid.
pub open spec fn defect(properties: Properties, key: Seq<char>, kind: PropertyKind) -> Option<
    ConfigDefect,
> {
    if key.len() == 0 {
        Some(ConfigDefect::Invalid(key))
    } else if !properties.dom().contains(key) {
        Some(ConfigDefect::Missing(key))
    } else if readable(properties[key], kind) {
        None
    } else {
        Some(ConfigDefect::Invalid(key))
    }
}

/// The value of `key` as text.
pub open spec fn text_at(properties: Properties, key: Seq<char>) -> Seq<char> {
    properties[key]
}

/// The value of `key` as a `u64`.
pub open spec fn natural_at(properties: Properties, key: Seq<char>) -> u64 {
    parsed_u64(text_at(properties, key))->0
}

/// The value of `key` as an `i32`.
pub open spec fn count_at(properties: Properties, key: Seq<char>) -> i32 {
    parsed_i32(text_at(properties, key))->0
}

/// The value of `key` as a truth value.
pub open spec fn flag_at(properties: Properties, key: Seq<char>) -> bool {
    parsed_bool(text_at(properties, key))->0
}

/// The value of `key` as a list.
pub open spec fn list_at(properties: Properties, key: Seq<char>) -> Seq<Seq<char>> {
    pattern_pieces(list_separator(), text_at(properties, key))->0
}

/// The defect that a reader meets first when it goes through the properties in the order
/// in which a configuration needs them.
pub open spec fn first_defect(p: Properties) -> Option<ConfigDefect> {
    if defect(p, "broker.host"@, PropertyKind::Text) is Some {
        defect(p, "broker.host"@, PropertyKind::Text)
    } else if defect(p, "broker.port"@, PropertyKind::Text) is Some {
        defect(p, "broker.port"@, PropertyKind::Text)
    } else if defect(p, "creds.username"@, PropertyKind::Text) is Some {
        defect(p, "creds.username"@, PropertyKind::Text)
    } else if defect(p, "creds.password"@, PropertyKind::Text) is Some {
        defect(p, "creds.password"@, PropertyKind::Text)
    } else if defect(p, "client.keep_alive"@, PropertyKind::Natural) is Some {
        defect(p, "client.keep_alive"@, PropertyKind::Natural)
    } else if defect(p, "client.timeout"@, PropertyKind::Natural) is Some {
        defect(p, "client.timeout"@, PropertyKind::Natural)
    } else if defect(p, "client.clean_session"@, PropertyKind::Flag) is Some {
        defect(p, "client.clean_session"@, PropertyKind::Flag)
    } else if defect(p, "subscriber_connection.id"@, PropertyKind::Text) is Some {
        defect(p, "subscriber_connection.id"@, PropertyKind::Text)
    } else if defect(p, "subscriber_connection.retries"@, PropertyKind::Natural) is Some {
        defect(p, "subscriber_connection.retries"@, PropertyKind::Natural)
    } else if defect(p, "subscriber_connection.retry_duration"@, PropertyKind::Natural)
        is Some {
        defect(p, "subscriber_connection.retry_duration"@, PropertyKind::Natural)
    } else if defect(p, "subscriber_connection.topics"@, PropertyKind::List) is Some {
        defect(p, "subscriber_connection.topics"@, PropertyKind::List)
    } else if defect(p, "publisher_connection.id"@, PropertyKind::Text) is Some {
        defect(p, "publisher_connection.id"@, PropertyKind::Text)
    } else if defect(p, "publisher_connection.topics"@, PropertyKind::List) is Some {
        defect(p, "publisher_connection.topics"@, PropertyKind::List)
    } else {
        defect(p, "publisher_connection.message_quantity"@, PropertyKind::Count)
    }
}

/// The address of the broker at `host` and `port`.
pub open spec fn broker_address(host: Seq<char>, port: Seq<char>) -> Seq<char> {
    "tcp://"@ + host + ":"@ + port
}

/// The configuration that the properties describe, if they have no defect.
pub open spec fn configured(p: Properties) -> ConfigView {
    ConfigView {
        broker: broker_address(text_at(p, "broker.host"@), text_at(p, "broker.port"@)),
        username: text_at(p, "creds.username"@),
        password: text_at(p, "creds.password"@),
        keep_alive: natural_at(p, "client.keep_alive"@),
        timeout: natural_at(p, "client.timeout"@),
        clean_session: flag_at(p, "client.clean_session"@),
        subscriber_id: text_at(p, "subscriber_connection.id"@),
        retries: natural_at(p, "subscriber_connection.retries"@),
        retry_duration: natural_at(p, "subscriber_connection.retry_duration"@),
        subscriber_topics: list_at(p, "subscriber_connection.topics"@),
        publisher_id: text_at(p, "publisher_connection.id"@),
        publisher_topics: list_at(p, "publisher_connection.topics"@),
        message_quantity: count_at(p, "publisher_connection.message_quantity"@),
    }
}

/// What building a configuration from the properties comes to.
pub open spec fn config_outcome(p: Properties) -> Result<ConfigView, ConfigDefect> {
    match first_defect(p) {
        Some(found) => Err(found),
        None => Ok(configured(p)),
    }
}

/// The outcome of a reading with every text taken as its characters.
pub open spec fn reading_view<T: View>(outcome: Result<T, ConfigPropertiesError>) -> Result<
    T::V,
    ConfigDefect,
> {
    match outcome {
        Ok(value) => Ok(value@),
        Err(error) => Err(error@),
    }
}

/// The text of the pattern that parts the items of a list.
pub fn list_separator_pattern() -> (r: &'static str)
    ensures
        r@ == list_separator(),
{
    proof {
        reveal_strlit(",(\\s)?");
    }
    let r = ",(\\s)?";
    assert(r@ =~= list_separator());
    r
}

/// Finds the value that `properties` holds for `key`.
pub fn find_property<'a>(properties: &'a Vec<(String, String)>, key: &str) -> (r: Option<
    &'a String,
>)
    ensures
        match r {
            Some(value) => entries(properties.deep_view()).dom().contains(key@) && entries(
                properties.deep_view(),
            )[key@] == value@,
            None => !entries(properties.deep_view()).dom().contains(key@),
        },
{
    let mut at: usize = 0;
    assert(properties.deep_view().skip(0) =~= properties.deep_view());
    while at < properties.len()
        invariant
            at <= properties.len(),
            lookup(properties.deep_view(), key@) == lookup(
                properties.deep_view().skip(at as int),
                key@,
            ),
        decreases properties.len() - at,
    {
        let ghost rest = properties.deep_view().skip(at as int);
        assert(rest[0] == (properties@[at as int].0@, properties@[at as int].1@));
        if same_text(properties[at].0.as_str(), key) {
            return Some(&properties[at].1);
        }
        assert(rest.skip(1) =~= properties.deep_view().skip(at + 1));
        at += 1;
    }
    None
}

/// Whether `properties` holds a value for `key` that can be read as `kind` asks: the key is
/// not empty, it is there, and its value is readable.
pub open spec fn sound(properties: Properties, key: Seq<char>, kind: PropertyKind) -> bool {
    &&& key.len() > 0
    &&& properties.dom().contains(key)
    &&& readable(properties[key], kind)
}

/// Retrieves the value of `key` from the properties, as text. It is meant for a key that is
/// not empty and that the properties hold; `read_property` takes any key.
pub fn get_property(properties: &Vec<(String, String)>, key: &str) -> (r: String)
    requires
        key@.len() > 0,
        entries(properties.deep_view()).dom().contains(key@),
    ensures
        r@ == text_at(entries(properties.deep_view()), key@),
{
    match find_property(properties, key) {
        Some(value) => value.clone(),
        None => String::new(),
    }
}

/// Retrieves the value of `key` from the properties, as a `u64`. It is meant for a key whose
/// value writes such a number; `read_natural` takes any key.
pub fn get_natural(properties: &Vec<(String, String)>, key: &str) -> (r: u64)
    requires
        sound(entries(properties.deep_view()), key@, PropertyKind::Natural),
    ensures
        r == natural_at(entries(properties.deep_view()), key@),
{
    let text = get_property(properties, key);
    match parse_u64(text.as_str()) {
        Some(value) => value,
        None => 0,
    }
}

/// Retrieves the value of `key` from the properties, as an `i32`. It is meant for a key
/// whose value writes such a number; `read_count` takes any key.
pub fn get_count(properties: &Vec<(String, String)>, key: &str) -> (r: i32)
    requires
        sound(entries(properties.deep_view()), key@, PropertyKind::Count),
    ensures
        r == count_at(entries(properties.deep_view()), key@),
{
    let text = get_property(properties, key);
    match parse_i32(text.as_str()) {
        Some(value) => value,
        None => 0,
    }
}

/// Retrieves the value of `key` from the properties, as a truth value. It is meant for a key
/// whose value is `true` or `false`; `read_flag` takes any key.
pub fn get_flag(properties: &Vec<(String, String)>, key: &str) -> (r: bool)
    requires
        sound(entries(properties.deep_view()), key@, PropertyKind::Flag),
    ensures
        r == flag_at(entries(properties.deep_view()), key@),
{
    let text = get_property(properties, key);
    match parse_bool(text.as_str()) {
        Some(value) => value,
        None => false,
    }
}

/// Retrieves the value of `key` from the properties, as a list of texts. It is meant for a
/// key whose value can be cut into items; `read_list` takes any key.
pub fn get_list(properties: &Vec<(String, String)>, key: &str) -> (r: Vec<String>)
    requires
        sound(entries(properties.deep_view()), key@, PropertyKind::List),
    ensures
        r.deep_view() == list_at(entries(properties.deep_view()), key@),
{
    let text = get_property(properties, key);
    match split(list_separator_pattern(), text.as_str()) {
        Some(items) => items,
        None => {
            let items: Vec<String> = Vec::new();
            items
        },
    }
}

/// Decides whether `value` can be read as `kind` asks.
pub fn is_readable_as(value: &str, kind: PropertyKind) -> (r: bool)
    ensures
        r == readable(value@, kind),
{
    match kind {
        PropertyKind::Text => true,
        PropertyKind::Natural => parse_u64(value).is_some(),
        PropertyKind::Count => parse_i32(value).is_some(),
        PropertyKind::Flag => parse_bool(value).is_some(),
        PropertyKind::List => split(list_separator_pattern(), value).is_some(),
    }
}

/// Finds what is wrong with the property `key`, if anything: an empty key is invalid, a key
/// without a value is missing, and a value that cannot be read as `kind` asks is invalid.
pub fn find_defect(properties: &Vec<(String, String)>, key: &str, kind: PropertyKind) -> (r:
    Option<ConfigPropertiesError>)
    ensures
        match r {
            Some(error) => defect(entries(properties.deep_view()), key@, kind) == Some(error@),
            None => sound(entries(properties.deep_view()), key@, kind),
        },
        r is None <==> defect(entries(properties.deep_view()), key@, kind) is None,
{
    if key.unicode_len() == 0 {
        return Some(ConfigPropertiesError::invalid(key));
    }
    match find_property(properties, key) {
        None => Some(ConfigPropertiesError::missing(key)),
        Some(value) => if is_readable_as(value.as_str(), kind) {
            None
        } else {
            Some(ConfigPropertiesError::invalid(key))
        },
    }
}

/// Reads the value of any `key` from the properties, as text, or says what is wrong with
/// the property.
pub fn read_property(properties: &Vec<(String, String)>, key: &str) -> (r: Result<
    String,
    ConfigPropertiesError,
>)
    ensures
        match r {
            Ok(value) => defect(entries(properties.deep_view()), key@, PropertyKind::Text)
                is None && value@ == text_at(entries(properties.deep_view()), key@),
            Err(error) => defect(entries(properties.deep_view()), key@, PropertyKind::Text)
                == Some(error@),
        },
{
    match find_defect(properties, key, PropertyKind::Text) {
        Some(error) => Err(error),
        None => Ok(get_property(properties, key)),
    }
}

/// Reads the value of any `key` from the properties, as a `u64`, or says what is wrong with
/// the property.
pub fn read_natural(properties: &Vec<(String, String)>, key: &str) -> (r: Result<
    u64,
    ConfigPropertiesError,
>)
    ensures
        match r {
            Ok(value) => defect(entries(properties.deep_view()), key@, PropertyKind::Natural)
                is None && value == natural_at(entries(properties.deep_view()), key@),
            Err(error) => defect(entries(properties.deep_view()), key@, PropertyKind::Natural)
                == Some(error@),
        },
{
    match find_defect(properties, key, PropertyKind::Natural) {
        Some(error) => Err(error),
        None => Ok(get_natural(properties, key)),
    }
}

/// Reads the value of any `key` from the properties, as an `i32`, or says what is wrong
/// with the property.
pub fn read_count(properties: &Vec<(String, String)>, key: &str) -> (r: Result<
    i32,
    ConfigPropertiesError,
>)
    ensures
        match r {
            Ok(value) => defect(entries(properties.deep_view()), key@, PropertyKind::Count)
                is None && value == count_at(entries(properties.deep_view()), key@),
            Err(error) => defect(entries(properties.deep_view()), key@, PropertyKind::Count)
                == Some(error@),
        },
{
    match find_defect(properties, key, PropertyKind::Count) {
        Some(error) => Err(error),
        None => Ok(get_count(properties, key)),
    }
}

/// Reads the value of any `key` from the properties, as a truth value, or says what is
/// wrong with the property.
pub fn read_flag(properties: &Vec<(String, String)>, key: &str) -> (r: Result<
    bool,
    ConfigPropertiesError,
>)
    ensures
        match r {
            Ok(value) => defect(entries(properties.deep_view()), key@, PropertyKind::Flag)
                is None && value == flag_at(entries(properties.deep_view()), key@),
            Err(error) => defect(entries(properties.deep_view()), key@, PropertyKind::Flag)
                == Some(error@),
        },
{
    match find_defect(properties, key, PropertyKind::Flag) {
        Some(error) => Err(error),
        None => Ok(get_flag(properties, key)),
    }
}

/// Reads the value of any `key` from the properties, as a list of texts, or says what is
/// wrong with the property.
pub fn read_list(properties: &Vec<(String, String)>, key: &str) -> (r: Result<
    Vec<String>,
    ConfigPropertiesError,
>)
    ensures
        match r {
            Ok(value) => defect(entries(properties.deep_view()), key@, PropertyKind::List)
                is None && value.deep_view() == list_at(entries(properties.deep_view()), key@),
            Err(error) => defect(entries(properties.deep_view()), key@, PropertyKind::List)
                == Some(error@),
        },
{
    match find_defect(properties, key, PropertyKind::List) {
        Some(error) => Err(error),
        None => Ok(get_list(properties, key)),
    }
}

/// The properties that `java_properties::read` finds in the bytes of a properties file;
/// `None` where it reports an error.
pub uninterp spec fn properties_in(contents: Seq<u8>) -> Option<Map<Seq<char>, Seq<char>>>;

/// Hands `contents` to `java_properties::read` and lists the pairs of the map that comes
/// back, in no particular order. Nothing is proved of them: the contract gives the map its
/// name and says that the listed pairs write down that map.
#[verifier::external_body]
fn read_properties(contents: &[u8]) -> (r: Option<Vec<(String, String)>>)
    ensures
        match r {
            Some(pairs) => properties_in(contents@) == Some(entries(pairs.deep_view())),
            None => properties_in(contents@) is None,
        },
{
    match java_properties::read(contents) {
        Ok(found) => Some(found.into_iter().collect()),
        Err(_) => None,
    }
}

/// The properties that a file's bytes give to a configuration: what the file holds, and
/// nothing at all where it cannot be read as a properties file.
pub open spec fn properties_of(contents: Seq<u8>) -> Properties {
    match properties_in(contents) {
        Some(found) => found,
        None => Map::empty(),
    }
}

/// Reads the bytes of a properties file into a list of pairs. Bytes that are no
/// properties file give an empty list.
pub fn read_config(contents: &[u8]) -> (r: Vec<(String, String)>)
    ensures
        entries(r.deep_view()) == properties_of(contents@),
{
    match read_properties(contents) {
        Some(pairs) => pairs,
        None => {
            let pairs: Vec<(String, String)> = Vec::new();
            assert(entries(pairs.deep_view()) =~= Map::<Seq<char>, Seq<char>>::empty());
            pairs
        },
    }
}

impl Config {
    /// Builds the configuration that a list of properties describes. The properties are
    /// gone through in a fixed order, and the first one that is missing or cannot be read
    /// comes back as the error.
    pub fn from_properties(properties: &Vec<(String, String)>) -> (r: Result<
        Config,
        ConfigPropertiesError,
    >)
        ensures
            reading_view(r) == config_outcome(entries(properties.deep_view())),
    {
        let host = match read_property(properties, "broker.host") {
            Ok(value) => value,
            Err(error) => {
                return Err(error);
            },
        };
        let port = match read_property(properties, "broker.port") {
            Ok(value) => value,
            Err(error) => {
                return Err(error);
            },
        };
        let username = match read_property(properties, "creds.username") {
            Ok(value) => value,
            Err(error) => {
                return Err(error);
            },
        };
        let password = match read_property(properties, "creds.password") {
            Ok(value) => value,
            Err(error) => {
                return Err(error);
            },
        };
        let keep_alive = match read_natural(properties, "client.keep_alive") {
            Ok(value) => value,
            Err(error) => {
                return Err(error);
            },
        };
        let timeout = match read_natural(properties, "client.timeout") {
            Ok(value) => value,
            Err(error) => {
                return Err(error);
            },
        };
        let clean_session = match read_flag(properties, "client.clean_session") {
            Ok(value) => value,
            Err(error) => {
                return Err(error);
            },
        };
        let subscriber_id = match read_property(properties, "subscriber_connection.id") {
            Ok(value) => value,
            Err(error) => {
                return Err(error);
            },
        };
        let retries = match read_natural(properties, "subscriber_connection.retries") {
            Ok(value) => value,
            Err(error) => {
                return Err(error);
            },
        };
        let retry_duration = match read_natural(
            properties,
            "subscriber_connection.retry_duration",
        ) {
            Ok(value) => value,
            Err(error) => {
                return Err(error);
            },
        };
        let subscriber_topics = match read_list(properties, "subscriber_connection.topics") {
            Ok(value) => value,
            Err(error) => {
                return Err(error);
            },
        };
        let publisher_id = match read_property(properties, "publisher_connection.id") {
            Ok(value) => value,
            Err(error) => {
                return Err(error);
            },
        };
        let publisher_topics = match read_list(properties, "publisher_connection.topics") {
            Ok(value) => value,
            Err(error) => {
                return Err(error);
            },
        };
        let message_quantity = match read_count(
            properties,
            "publisher_connection.message_quantity",
        ) {
            Ok(value) => value,
            Err(error) => {
                return Err(error);
            },
        };
        let mut broker = String::from_str("tcp://");
        broker.append(host.as_str());
        broker.append(":");
        broker.append(port.as_str());
        let config = Config {
            broker,
            creds: Credentials { username, password },
            client: Client { keep_alive, timeout, clean_session },
            subscriber_connection: SubscriberConnection {
                id: subscriber_id,
                retries,
                retry_duration,
                topics: subscriber_topics,
            },
            publisher_connection: PublisherConnection {
                id: publisher_id,
                topics: publisher_topics,
                message_quantity,
            },
        };
        assert(config@ == configured(entries(properties.deep_view())));
        Ok(config)
    }

    /// Creates the configuration that the bytes of a properties file describe. Bytes that
    /// are no properties file describe nothing, so that the first required property is
    /// reported as missing.
    pub fn new(contents: &[u8]) -> (r: Result<Config, ConfigPropertiesError>)
        ensures
            reading_view(r) == config_outcome(properties_of(contents@)),
    {
        let properties = read_config(contents);
        Config::from_properties(&properties)
    }
}

} // verus!
