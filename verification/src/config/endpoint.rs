//! The settings in their `endpoints` form: where the exporter listens, and
//! the endpoints it polls, each given by address and port.
use vstd::prelude::*;
use vstd::string::StringExecFns;
use crate::text::{decimal, decimal_digits};

verus! {

/// One endpoint to poll.
#[derive(Debug, Clone)]
pub struct Endpoint {
    ip: String,
    port: Option<u16>,
    scheme: Option<String>,
    tls_insecure: Option<bool>,
    interval: Option<u64>,
    username: String,
    password: String,
}

/// Mathematical value of an [`Endpoint`].
pub struct EndpointView {
    pub ip: Seq<char>,
    pub port: Option<u16>,
    pub scheme: Option<Seq<char>>,
    pub tls_insecure: Option<bool>,
    pub interval: Option<u64>,
    pub username: Seq<char>,
    pub password: Seq<char>,
}

impl EndpointView {
    /// The port, 443 unless set.
    pub open spec fn port_or_default(self) -> u16 {
        match self.port {
            Some(port) => port,
            None => 443,
        }
    }

    /// The address and the port, with a colon between them.
    pub open spec fn host(self) -> Seq<char> {
        self.ip + seq![':'] + decimal_digits(self.port_or_default() as nat)
    }
}

impl View for Endpoint {
    type V = EndpointView;

    closed spec fn view(&self) -> EndpointView {
        EndpointView {
            ip: self.ip@,
            port: self.port,
            scheme: match self.scheme {
                Some(scheme) => Some(scheme@),
                None => None,
            },
            tls_insecure: self.tls_insecure,
            interval: self.interval,
            username: self.username@,
            password: self.password@,
        }
    }
}

impl Endpoint {
    /// An endpoint with the given settings; `None` leaves a setting at its
    /// default.
    pub fn new(
        ip: String,
        port: Option<u16>,
        scheme: Option<String>,
        tls_insecure: Option<bool>,
        interval: Option<u64>,
        username: String,
        password: String,
    ) -> (endpoint: Endpoint)
        ensures
            endpoint@ == (EndpointView {
                ip: ip@,
                port,
                scheme: match scheme {
                    Some(scheme) => Some(scheme@),
                    None => None,
                },
                tls_insecure,
                interval,
                username: username@,
                password: password@,
            }),
    {
        Endpoint { ip, port, scheme, tls_insecure, interval, username, password }
    }

    /// The address of the endpoint.
    pub fn ip(&self) -> (r: &str)
        ensures
            r@ == self@.ip,
    {
        self.ip.as_str()
    }

    /// The port of the endpoint, 443 unless set.
    pub fn port(&self) -> (r: u16)
        ensures
            r == self@.port_or_default(),
    {
        match self.port {
            Some(port) => port,
            None => 443,
        }
    }

    /// The scheme, `https` unless set.
    pub fn scheme(&self) -> (r: &str)
        ensures
            r@ == match self@.scheme {
                Some(scheme) => scheme,
                None => "https"@,
            },
    {
        match &self.scheme {
            Some(scheme) => scheme.as_str(),
            None => "https",
        }
    }

    /// Whether certificates are accepted without verification; `false`
    /// unless set.
    pub fn tls_insecure(&self) -> (r: bool)
        ensures
            r == match self@.tls_insecure {
                Some(flag) => flag,
                None => false,
            },
    {
        match self.tls_insecure {
            Some(flag) => flag,
            None => false,
        }
    }

    /// The seconds between two polls; 30 unless set.
    pub fn interval(&self) -> (r: u64)
        ensures
            r == match self@.interval {
                Some(seconds) => seconds,
                None => 30,
            },
    {
        match self.interval {
            Some(seconds) => seconds,
            None => 30,
        }
    }

    /// The user name of the login.
    pub fn username(&self) -> (r: &str)
        ensures
            r@ == self@.username,
    {
        self.username.as_str()
    }

    /// The password of the login.
    pub fn password(&self) -> (r: &str)
        ensures
            r@ == self@.password,
    {
        self.password.as_str()
    }

    /// The address and the port of the endpoint, with a colon between them.
    pub fn host(&self) -> (r: String)
        ensures
            r@ == self@.host(),
    {
        let mut host = self.ip.clone();
        host.push(':');
        let digits = decimal(self.port() as u64);
        host.append(digits.as_str());
        host
    }
}

/// The settings of the exporter.
#[derive(Debug, Clone)]
pub struct Config {
    ip: String,
    port: Option<u16>,
    endpoints: Vec<Endpoint>,
}

/// Mathematical value of a [`Config`].
pub struct ConfigView {
    pub ip: Seq<char>,
    pub port: Option<u16>,
    pub endpoints: Seq<EndpointView>,
}

impl ConfigView {
    /// The port to listen on, 8000 unless set.
    pub open spec fn port_or_default(self) -> u16 {
        match self.port {
            Some(port) => port,
            None => 8000,
        }
    }

    /// The address and the port to listen on, with a colon between them.
    pub open spec fn bind_address(self) -> Seq<char> {
        self.ip + seq![':'] + decimal_digits(self.port_or_default() as nat)
    }
}

impl View for Config {
    type V = ConfigView;

    closed spec fn view(&self) -> ConfigView {
        ConfigView {
            ip: self.ip@,
            port: self.port,
            endpoints: Seq::new(self.endpoints@.len(), |i: int| self.endpoints@[i]@),
        }
    }
}

impl Config {
    /// Settings with the given values; without a port the default is used.
    pub fn new(ip: String, port: Option<u16>, endpoints: Vec<Endpoint>) -> (config: Config)
        ensures
            config@ == (ConfigView {
                ip: ip@,
                port,
                endpoints: Seq::new(endpoints@.len(), |i: int| endpoints@[i]@),
            }),
    {
        Config { ip, port, endpoints }
    }

    /// The address to listen on.
    pub fn ip(&self) -> (r: &str)
        ensures
            r@ == self@.ip,
    {
        self.ip.as_str()
    }

    /// The port to listen on, 8000 unless set.
    pub fn port(&self) -> (r: u16)
        ensures
            r == self@.port_or_default(),
    {
        match self.port {
            Some(port) => port,
            None => 8000,
        }
    }

    /// The endpoints to poll.
    pub fn endpoints(&self) -> (r: &Vec<Endpoint>)
        ensures
            r@.len() == self@.endpoints.len(),
            forall|i: int| 0 <= i < r@.len() ==> (#[trigger] r@[i])@ == self@.endpoints[i],
    {
        &self.endpoints
    }

    /// The address and the port to listen on, with a colon between them.
    pub fn bind_address(&self) -> (r: String)
        ensures
            r@ == self@.bind_address(),
    {
        let mut address = self.ip.clone();
        address.push(':');
        let digits = decimal(self.port() as u64);
        address.append(digits.as_str());
        address
    }
}

} // verus!
