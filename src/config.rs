//! Fixed integration constants, the process configuration, and the mail-service URLs.

use vstd::prelude::*;

verus! {

/// Display name of the integration, as shown on the device.
pub const INTEGRATION_NAME: &'static str = "Reolink Mailpit";

/// Identifier of the integration: MQTT client id, topic segment and device identifier.
pub const INTEGRATION_IDENTIFIER: &'static str = "reolink-mailpit";

/// Values the pipeline is built from: where the mail service and the broker are,
/// and which integration it speaks for.
pub struct AppConfig {
    pub mailpit_url: String,
    pub mqtt_host: String,
    pub mqtt_port: u16,
    pub integration_id: String,
    pub integration_name: String,
}

impl AppConfig {
    /// A configuration for the default integration.
    pub fn new(mailpit_url: String, mqtt_host: String, mqtt_port: u16) -> (r: AppConfig)
        ensures
            r.mailpit_url@ == mailpit_url@,
            r.mqtt_host@ == mqtt_host@,
            r.mqtt_port == mqtt_port,
            r.integration_id@ == INTEGRATION_IDENTIFIER@,
            r.integration_name@ == INTEGRATION_NAME@,
    {
        AppConfig {
            mailpit_url,
            mqtt_host,
            mqtt_port,
            integration_id: String::from_str(INTEGRATION_IDENTIFIER),
            integration_name: String::from_str(INTEGRATION_NAME),
        }
    }

    /// The same configuration, speaking for another integration.
    pub fn with_integration(self, integration_id: String, integration_name: String) -> (r:
        AppConfig)
        ensures
            r.mailpit_url == self.mailpit_url,
            r.mqtt_host == self.mqtt_host,
            r.mqtt_port == self.mqtt_port,
            r.integration_id == integration_id,
            r.integration_name == integration_name,
    {
        AppConfig { integration_id, integration_name, ..self }
    }
}

/// `{base}/api/v1/message/{id}`: the metadata of one message.
pub open spec fn message_url_of(base: Seq<char>, id: Seq<char>) -> Seq<char> {
    base + "/api/v1/message/"@ + id
}

/// `{base}/api/v1/message/{id}/part/{part}`: the content of one part of a message.
pub open spec fn part_url_of(base: Seq<char>, id: Seq<char>, part: Seq<char>) -> Seq<char> {
    message_url_of(base, id) + "/part/"@ + part
}

pub fn message_url(base: &str, id: &str) -> (r: String)
    ensures
        r@ == message_url_of(base@, id@),
{
    let mut url = String::from_str(base);
    url.append("/api/v1/message/");
    url.append(id);
    url
}

pub fn part_url(base: &str, id: &str, part: &str) -> (r: String)
    ensures
        r@ == part_url_of(base@, id@, part@),
{
    let mut url = message_url(base, id);
    url.append("/part/");
    url.append(part);
    url
}

/// Why the configuration cannot be built.
#[derive(Clone, Copy, Debug, PartialEq, Eq, Structural)]
pub enum ConfigError {
    MissingMailpitUrl,
    MissingMqttHost,
    MissingMqttPort,
    /// The port is not a decimal number from 1 to 65535.
    InvalidMqttPort,
}

pub open spec fn is_digit(c: char) -> bool {
    48 <= c as u32 <= 57
}

/// The number that the decimal digits `s` write.
pub open spec fn decimal_value(s: Seq<char>) -> int
    decreases s.len(),
{
    if s.len() == 0 {
        0
    } else {
        decimal_value(s.drop_last()) * 10 + (s.last() as u32 - 48)
    }
}

/// The port that the digits `s` name: a non-empty run of decimal digits whose
/// value is from 1 to 65535.
pub open spec fn digits_port(s: Seq<char>) -> Option<u16> {
    if s.len() > 0 && (forall|i: int| 0 <= i < s.len() ==> is_digit(#[trigger] s[i])) && 1
        <= decimal_value(s) <= 65535 {
        Some(decimal_value(s) as u16)
    } else {
        None
    }
}

/// The port that `s` names: its digits, after an optional leading `+`.
pub open spec fn port_of(s: Seq<char>) -> Option<u16> {
    if s.len() > 0 && s[0] == '+' {
        digits_port(s.drop_first())
    } else {
        digits_port(s)
    }
}

proof fn lemma_prefix_value(s: Seq<char>, k: int)
    requires
        0 <= k <= s.len(),
        forall|i: int| 0 <= i < s.len() ==> is_digit(#[trigger] s[i]),
    ensures
        0 <= decimal_value(s.take(k)) <= decimal_value(s),
    decreases s.len(),
{
    if k == s.len() {
        assert(s.take(k) =~= s);
        if s.len() > 0 {
            lemma_prefix_value(s.drop_last(), k - 1);
            assert(s.drop_last().take(k - 1) =~= s.drop_last());
        }
    } else {
        lemma_prefix_value(s.drop_last(), k);
        assert(s.drop_last().take(k) =~= s.take(k));
        lemma_prefix_value(s.drop_last(), s.len() - 1);
        assert(s.drop_last().take(s.len() - 1) =~= s.drop_last());
    }
}

/// The port that `text` names, or `None` where it names none.
pub fn parse_port(text: &str) -> (r: Option<u16>)
    ensures
        r == port_of(text@),
{
    let n = text.unicode_len();
    if n > 0 && text.get_char(0) == '+' {
        let digits = text.substring_char(1, n);
        assert(digits@ =~= text@.drop_first());
        parse_digits(digits)
    } else {
        parse_digits(text)
    }
}

fn parse_digits(text: &str) -> (r: Option<u16>)
    ensures
        r == digits_port(text@),
{
    let n = text.unicode_len();
    if n == 0 {
        return None;
    }
    let mut v: u32 = 0;
    let mut i: usize = 0;
    while i < n
        invariant
            i <= n,
            n == text@.len(),
            forall|j: int| 0 <= j < i ==> is_digit(#[trigger] text@[j]),
            v == decimal_value(text@.take(i as int)),
            v <= 65535,
        decreases n - i,
    {
        let c = text.get_char(i);
        let d = c as u32;
        if d < 48 || d > 57 {
            return None;
        }
        assert(text@.take(i + 1).drop_last() =~= text@.take(i as int));
        let next = v * 10 + (d - 48);
        if next > 65535 {
            proof {
                if forall|j: int| 0 <= j < text@.len() ==> is_digit(#[trigger] text@[j]) {
                    lemma_prefix_value(text@, i + 1);
                }
            }
            return None;
        }
        v = next;
        i = i + 1;
    }
    assert(text@.take(n as int) =~= text@);
    if v == 0 {
        None
    } else {
        Some(v as u16)
    }
}

impl AppConfig {
    /// The configuration from the three values the environment supplies, each
    /// `None` where it is absent; the integration is the default one.
    pub fn from_values(
        mailpit_url: Option<String>,
        mqtt_host: Option<String>,
        mqtt_port: Option<String>,
    ) -> (r: Result<AppConfig, ConfigError>)
        ensures
            mailpit_url is None ==> r == Err::<AppConfig, ConfigError>(
                ConfigError::MissingMailpitUrl,
            ),
            mailpit_url is Some && mqtt_host is None ==> r == Err::<AppConfig, ConfigError>(
                ConfigError::MissingMqttHost,
            ),
            mailpit_url is Some && mqtt_host is Some && mqtt_port is None ==> r == Err::<
                AppConfig,
                ConfigError,
            >(ConfigError::MissingMqttPort),
            mailpit_url is Some && mqtt_host is Some && mqtt_port is Some && port_of(
                mqtt_port->0@,
            ) is None ==> r == Err::<AppConfig, ConfigError>(ConfigError::InvalidMqttPort),
            mailpit_url is Some && mqtt_host is Some && mqtt_port is Some && port_of(
                mqtt_port->0@,
            ) is Some ==> (r matches Ok(c) && c.mailpit_url@ == mailpit_url->0@ && c.mqtt_host@
                == mqtt_host->0@ && Some(c.mqtt_port) == port_of(mqtt_port->0@)
                && c.integration_id@ == INTEGRATION_IDENTIFIER@ && c.integration_name@
                == INTEGRATION_NAME@),
    {
        let url = match mailpit_url {
            Some(u) => u,
            None => return Err(ConfigError::MissingMailpitUrl),
        };
        let host = match mqtt_host {
            Some(h) => h,
            None => return Err(ConfigError::MissingMqttHost),
        };
        let port_text = match mqtt_port {
            Some(p) => p,
            None => return Err(ConfigError::MissingMqttPort),
        };
        match parse_port(port_text.as_str()) {
            Some(port) => Ok(AppConfig::new(url, host, port)),
            None => Err(ConfigError::InvalidMqttPort),
        }
    }
}

} // verus!
