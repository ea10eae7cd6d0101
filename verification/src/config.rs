//! Connection configuration: broker address, port parsing, credentials,
//! and the configuration errors that make a start-up fatal.

use vstd::prelude::*;

verus! {

/// A configuration error: the process must not proceed without a usable
/// connection, so each of these is fatal at startup.
#[derive(Debug)]
pub enum MqttError {
    MissingCredendials,
    MissingBrokerHost,
    InvalidPort,
}

impl MqttError {
    /// The human-readable description of this error.
    pub fn message(&self) -> (r: String)
        ensures
            *self is MissingCredendials ==> r@ == "Missing MQTT credentials"@,
            *self is MissingBrokerHost ==> r@ == "Missing MQTT broker host"@,
            *self is InvalidPort ==> r@ == "Invalid MQTT port"@,
    {
        match self {
            MqttError::MissingCredendials => String::from_str("Missing MQTT credentials"),
            MqttError::MissingBrokerHost => String::from_str("Missing MQTT broker host"),
            MqttError::InvalidPort => String::from_str("Invalid MQTT port"),
        }
    }
}

/// A decimal digit.
pub open spec fn is_digit(c: char) -> bool {
    '0' <= c && c <= '9'
}

/// The value of a decimal digit.
pub open spec fn digit_val(c: char) -> int {
    c as int - '0' as int
}

/// The numeric value of a string of decimal digits, most significant first.
pub open spec fn dec_val(s: Seq<char>) -> int
    decreases s.len(),
{
    if s.len() == 0 {
        0
    } else {
        dec_val(s.drop_last()) * 10 + digit_val(s.last())
    }
}

/// The digits of a port text: everything after an optional leading plus
/// sign.
pub open spec fn port_digits(s: Seq<char>) -> Seq<char> {
    if s.len() > 0 && s[0] == '+' {
        s.drop_first()
    } else {
        s
    }
}

/// Whether a string is a valid port: an optional plus sign, then at least
/// one digit, with a value that fits a sixteen-bit port number.
pub open spec fn is_port_text(s: Seq<char>) -> bool {
    let digits = port_digits(s);
    &&& digits.len() > 0
    &&& forall|i: int| 0 <= i < digits.len() ==> is_digit(#[trigger] digits[i])
    &&& dec_val(digits) <= 65535
}

/// A string of decimal digits never has a negative value.
proof fn lemma_dec_val_nonneg(s: Seq<char>)
    requires
        forall|i: int| 0 <= i < s.len() ==> is_digit(#[trigger] s[i]),
    ensures
        dec_val(s) >= 0,
    decreases s.len(),
{
    if s.len() > 0 {
        lemma_dec_val_nonneg(s.drop_last());
    }
}

/// Parses a decimal port number.
#[verifier::loop_isolation(false)]
pub fn parse_port(s: &str) -> (r: Result<u16, MqttError>)
    ensures
        match r {
            Ok(p) => is_port_text(s@) && p as int == dec_val(port_digits(s@)),
            Err(e) => !is_port_text(s@) && e is InvalidPort,
        },
{
    let n = s.unicode_len();
    let mut start: usize = 0;
    if n > 0 && s.get_char(0) == '+' {
        start = 1;
    }
    if start >= n {
        return Err(MqttError::InvalidPort);
    }
    let ghost digits = port_digits(s@);
    proof {
        assert(digits =~= s@.skip(start as int));
    }
    let mut acc: u32 = 0;
    let mut i: usize = start;
    while i < n
        invariant
            start <= i <= n,
            acc <= 100000,
            forall|k: int| start <= k < i ==> is_digit(#[trigger] s@[k]),
            (acc <= 65535 && acc as int == dec_val(s@.subrange(start as int, i as int))) || (acc
                == 100000 && dec_val(s@.subrange(start as int, i as int)) > 65535),
        decreases n - i,
    {
        let c = s.get_char(i);
        if !('0' <= c && c <= '9') {
            proof {
                assert(digits[i - start] == s@[i as int]);
            }
            return Err(MqttError::InvalidPort);
        }
        let d: u32 = (c as u32) - 48;
        proof {
            let pre = s@.subrange(start as int, i as int);
            let now = s@.subrange(start as int, i + 1 as int);
            assert(now.drop_last() =~= pre);
            assert(now.last() == s@[i as int]);
            lemma_dec_val_nonneg(pre);
        }
        if acc > 6553 || (acc == 6553 && d > 5) {
            acc = 100000;
        } else {
            acc = acc * 10 + d;
        }
        i = i + 1;
    }
    proof {
        assert(s@.subrange(start as int, n as int) =~= digits);
        assert forall|j: int| 0 <= j < digits.len() implies is_digit(#[trigger] digits[j]) by {
            assert(digits[j] == s@[start + j]);
        }
    }
    if acc > 65535 {
        return Err(MqttError::InvalidPort);
    }
    Ok(acc as u16)
}

/// The broker's address: host name and port.
pub struct MqttBroker {
    pub host: String,
    pub port: u16,
}

impl MqttBroker {
    /// Builds the broker address from the configured host and port texts.
    /// A missing host is fatal; a missing port falls back to the default
    /// port; a malformed port is fatal.
    pub fn new(host: Option<String>, port_text: Option<&str>) -> (r: Result<MqttBroker, MqttError>)
        ensures
            match r {
                Ok(b) => {
                    &&& host matches Some(h) && b.host == h
                    &&& match port_text {
                        Some(p) => is_port_text(p@) && b.port as int == dec_val(port_digits(p@)),
                        None => b.port == 1884u16,
                    }
                },
                Err(e) => match host {
                    None => e is MissingBrokerHost,
                    Some(_) => e is InvalidPort && (port_text matches Some(p) && !is_port_text(
                        p@,
                    )),
                },
            },
    {
        let host = match host {
            Some(h) => h,
            None => {
                return Err(MqttError::MissingBrokerHost);
            },
        };
        let port = match port_text {
            Some(p) => match parse_port(p) {
                Ok(v) => v,
                Err(e) => {
                    return Err(e);
                },
            },
            None => 1884,
        };
        Ok(MqttBroker { host, port })
    }

    /// The websocket connection string for this broker.
    pub fn connection_string(&self) -> (r: String)
        ensures
            r@ == "ws://"@ + self.host@ + ":"@ + crate::text::dec_of(self.port as nat),
    {
        let tail = crate::text::decimal_string(self.port as usize);
        String::from_str("ws://").concat(self.host.as_str()).concat(":").concat(tail.as_str())
    }
}

/// The optional credentials for the broker connection.
pub struct MqttCredentials {
    pub username: Option<String>,
    pub password: Option<String>,
}

impl MqttCredentials {
    /// Wraps the configured user name and password, either of which may be
    /// absent.
    pub fn new(username: Option<String>, password: Option<String>) -> (r: MqttCredentials)
        ensures
            r.username == username,
            r.password == password,
    {
        MqttCredentials { username, password }
    }

    /// The configured user name.
    pub fn username(&self) -> (r: Option<&str>)
        ensures
            match r {
                Some(u) => self.username matches Some(x) && u@ == x@,
                None => self.username is None,
            },
    {
        match &self.username {
            Some(u) => Some(u.as_str()),
            None => None,
        }
    }

    /// The configured password.
    pub fn password(&self) -> (r: Option<&str>)
        ensures
            match r {
                Some(p) => self.password matches Some(x) && p@ == x@,
                None => self.password is None,
            },
    {
        match &self.password {
            Some(p) => Some(p.as_str()),
            None => None,
        }
    }

    /// The credential pair to hand to the transport: both parts when both
    /// are configured, none when neither is, and a configuration error when
    /// only one of the two is present.
    pub fn credential_pair(&self) -> (r: Result<Option<(&str, &str)>, MqttError>)
        ensures
            match r {
                Ok(Some((u, p))) => {
                    &&& self.username matches Some(x) && u@ == x@
                    &&& self.password matches Some(y) && p@ == y@
                },
                Ok(None) => self.username is None && self.password is None,
                Err(e) => {
                    &&& e is MissingCredendials
                    &&& (self.username is None) != (self.password is None)
                },
            },
    {
        match (&self.username, &self.password) {
            (Some(u), Some(p)) => Ok(Some((u.as_str(), p.as_str()))),
            (None, None) => Ok(None),
            _ => Err(MqttError::MissingCredendials),
        }
    }
}

} // verus!

