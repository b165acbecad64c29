//! Listener settings: where the plaintext and the TLS listener bind, and how
//! the ports of one runtime instance follow from those of the other.

use vstd::prelude::*;

verus! {

/// The host part of a listener address, as the four octets of an IPv4 address
/// or the eight segments of an IPv6 address with its flow and scope.
#[derive(Clone, Copy, Debug, PartialEq, Eq)]
pub enum Host {
    V4 { octets: [u8; 4] },
    V6 { segments: [u16; 8], flowinfo: u32, scope_id: u32 },
}

/// A socket address: a host and a port.
#[derive(Clone, Copy, Debug, PartialEq, Eq)]
pub struct HostPort {
    pub host: Host,
    pub port: u16,
}

impl HostPort {
    /// Whether the port can be moved up by `n` and still be a port.
    pub open spec fn can_shift(self, n: nat) -> bool {
        self.port + n <= u16::MAX
    }

    /// The same host with the port moved up by `n`.
    pub open spec fn shifted(self, n: nat) -> HostPort
        recommends
            self.can_shift(n),
    {
        HostPort { host: self.host, port: (self.port + n) as u16 }
    }
}

/// The plaintext listener.
#[derive(Debug, PartialEq, Eq)]
pub struct HttpServerSettings {
    pub host_port: HostPort,
}

/// The TLS listener: its address and the paths of its PEM files.
#[derive(Debug, PartialEq, Eq)]
pub struct HttpsServerSettings {
    pub host_port: HostPort,
    pub cert_pem: String,
    pub key_rsa_pem: String,
}

/// Both listeners, each of which may be absent.
#[derive(Debug, PartialEq, Eq)]
pub struct Settings {
    pub https: Option<HttpsServerSettings>,
    pub http: Option<HttpServerSettings>,
}

impl HttpServerSettings {
    pub open spec fn shifted(self, n: nat) -> HttpServerSettings {
        HttpServerSettings { host_port: self.host_port.shifted(n) }
    }
}

impl Clone for HttpServerSettings {
    fn clone(&self) -> (copy: Self)
        ensures
            copy == *self,
    {
        HttpServerSettings { host_port: self.host_port }
    }
}

impl HttpsServerSettings {
    pub open spec fn shifted(self, n: nat) -> HttpsServerSettings {
        HttpsServerSettings {
            host_port: self.host_port.shifted(n),
            cert_pem: self.cert_pem,
            key_rsa_pem: self.key_rsa_pem,
        }
    }
}

impl Clone for HttpsServerSettings {
    fn clone(&self) -> (copy: Self)
        ensures
            copy == *self,
    {
        HttpsServerSettings {
            host_port: self.host_port,
            cert_pem: self.cert_pem.clone(),
            key_rsa_pem: self.key_rsa_pem.clone(),
        }
    }
}

impl Clone for Settings {
    fn clone(&self) -> (copy: Self)
        ensures
            copy == *self,
    {
        let https = match &self.https {
            Some(https) => Some(https.clone()),
            None => None,
        };
        let http = match &self.http {
            Some(http) => Some(http.clone()),
            None => None,
        };
        Settings { https, http }
    }
}

impl Settings {
    /// Whether every configured port can be moved up by `n`.
    pub open spec fn can_shift(self, n: nat) -> bool {
        &&& self.https matches Some(https) ==> https.host_port.can_shift(n)
        &&& self.http matches Some(http) ==> http.host_port.can_shift(n)
    }

    /// These settings with every configured port moved up by `n` and nothing
    /// else changed.
    pub open spec fn shifted(self, n: nat) -> Settings
        recommends
            self.can_shift(n),
    {
        Settings {
            https: match self.https {
                Some(https) => Some(https.shifted(n)),
                None => None,
            },
            http: match self.http {
                Some(http) => Some(http.shifted(n)),
                None => None,
            },
        }
    }

    /// Whether `increment_ports` may be called: no configured port is the
    /// highest one.
    pub fn can_increment_ports(&self) -> (possible: bool)
        ensures
            possible == self.can_shift(1),
    {
        let https_fits = match &self.https {
            Some(https) => https.host_port.port < u16::MAX,
            None => true,
        };
        let http_fits = match &self.http {
            Some(http) => http.host_port.port < u16::MAX,
            None => true,
        };
        https_fits && http_fits
    }

    /// Moves the port of every configured listener up by one.
    pub fn increment_ports(&mut self)
        requires
            old(self).can_shift(1),
        ensures
            *final(self) == old(self).shifted(1),
    {
        if let Some(ref mut https) = self.https {
            let next_port: u16 = https.host_port.port + 1;
            https.host_port.port = next_port;
        }
        if let Some(ref mut http) = self.http {
            let next_port: u16 = http.host_port.port + 1;
            http.host_port.port = next_port;
        }
    }
}

/// Moving the ports up leaves everything but the ports as it was: which
/// listeners are configured, their hosts and the paths of the PEM files.
pub proof fn lemma_shift_moves_only_ports(settings: Settings, n: nat)
    requires
        settings.can_shift(n),
    ensures
        settings.shifted(n).https is Some == settings.https is Some,
        settings.shifted(n).http is Some == settings.http is Some,
        settings.https matches Some(https) ==> {
            let moved = settings.shifted(n).https->0;
            &&& moved.host_port.host == https.host_port.host
            &&& moved.host_port.port == https.host_port.port + n
            &&& moved.cert_pem == https.cert_pem
            &&& moved.key_rsa_pem == https.key_rsa_pem
        },
        settings.http matches Some(http) ==> {
            let moved = settings.shifted(n).http->0;
            &&& moved.host_port.host == http.host_port.host
            &&& moved.host_port.port == http.host_port.port + n
        },
{
}

/// Incrementing the ports twice moves every configured port up by exactly
/// two and changes nothing else.
pub proof fn lemma_increment_twice(settings: Settings)
    requires
        settings.can_shift(2),
    ensures
        settings.can_shift(1),
        settings.shifted(1).can_shift(1),
        settings.shifted(1).shifted(1) == settings.shifted(2),
{
}

} // verus!
