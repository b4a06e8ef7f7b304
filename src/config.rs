//! Start-up settings: where the server listens and, optionally, the TLS
//! material it terminates connections with. Settings never change after
//! construction.
use vstd::prelude::*;

verus! {

/// The port used when no configuration says otherwise.
pub const DEFAULT_PORT: u16 = 5000;

/// Paths of the PEM certificate and private key used for TLS.
pub struct SecurityConfig {
    cert_path: String,
    key_path: String,
}

/// Abstract value of a [`SecurityConfig`].
pub struct SecurityView {
    pub cert_path: Seq<char>,
    pub key_path: Seq<char>,
}

impl View for SecurityConfig {
    type V = SecurityView;

    closed spec fn view(&self) -> SecurityView {
        SecurityView { cert_path: self.cert_path@, key_path: self.key_path@ }
    }
}

impl SecurityConfig {
    pub fn new(cert_path: String, key_path: String) -> (r: SecurityConfig)
        ensures
            r@.cert_path == cert_path@,
            r@.key_path == key_path@,
    {
        SecurityConfig { cert_path, key_path }
    }

    pub fn cert_path(&self) -> (r: &str)
        ensures
            r@ == self@.cert_path,
    {
        self.cert_path.as_str()
    }

    pub fn key_path(&self) -> (r: &str)
        ensures
            r@ == self@.key_path,
    {
        self.key_path.as_str()
    }
}

/// Network interface, port and optional TLS material of a server.
pub struct Config {
    port: u16,
    interface: String,
    security: Option<SecurityConfig>,
}

/// Abstract value of a [`Config`].
pub struct ConfigView {
    pub port: u16,
    pub interface: Seq<char>,
    pub security: Option<SecurityView>,
}

pub open spec fn security_view(s: Option<SecurityConfig>) -> Option<SecurityView> {
    match s {
        Some(m) => Some(m@),
        None => None,
    }
}

impl View for Config {
    type V = ConfigView;

    closed spec fn view(&self) -> ConfigView {
        ConfigView {
            port: self.port,
            interface: self.interface@,
            security: security_view(self.security),
        }
    }
}

impl Default for Config {
    /// Listen on every interface, port 5000, in plain text.
    fn default() -> (r: Config)
        ensures
            r@.port == DEFAULT_PORT,
            r@.interface == "0.0.0.0"@,
            r@.security is None,
    {
        Config { port: DEFAULT_PORT, interface: "0.0.0.0".to_owned(), security: None }
    }
}

impl Config {
    pub fn new(port: u16, interface: String, security: Option<SecurityConfig>) -> (r: Config)
        ensures
            r@.port == port,
            r@.interface == interface@,
            r@.security == security_view(security),
    {
        Config { port, interface, security }
    }

    pub fn port(&self) -> (r: u16)
        ensures
            r == self@.port,
    {
        self.port
    }

    pub fn interface(&self) -> (r: &str)
        ensures
            r@ == self@.interface,
    {
        self.interface.as_str()
    }

    /// The TLS material, if connections are to be encrypted.
    pub fn security(&self) -> (r: Option<&SecurityConfig>)
        ensures
            match r {
                Some(m) => self@.security == Some(m@),
                None => self@.security is None,
            },
    {
        self.security.as_ref()
    }

    /// Whether accepted connections must complete a TLS handshake.
    pub fn is_secure(&self) -> (r: bool)
        ensures
            r == self@.security is Some,
    {
        self.security.is_some()
    }
}

} // verus!
