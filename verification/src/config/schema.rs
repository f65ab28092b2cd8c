//! The settings in their `targets` form: where the exporter listens, and the
//! targets it polls.
use vstd::prelude::*;
use vstd::string::StringExecFns;
use crate::text::{decimal, decimal_digits, views};

verus! {

/// One target to poll.
#[derive(Debug, Clone)]
pub struct Target {
    host: String,
    port: Option<u16>,
    scheme: Option<String>,
    tls_insecure: Option<bool>,
    interval: Option<u64>,
    username: String,
    password: String,
    track_devices: Option<Vec<String>>,
}

/// Mathematical value of a [`Target`].
pub struct TargetView {
    pub host: Seq<char>,
    pub port: Option<u16>,
    pub scheme: Option<Seq<char>>,
    pub tls_insecure: Option<bool>,
    pub interval: Option<u64>,
    pub username: Seq<char>,
    pub password: Seq<char>,
    pub track_devices: Option<Seq<Seq<char>>>,
}

/// A colon and the port in decimal notation, or nothing where no port is set.
pub open spec fn port_suffix(port: Option<u16>) -> Seq<char> {
    match port {
        Some(port) => seq![':'] + decimal_digits(port as nat),
        None => Seq::empty(),
    }
}

impl TargetView {
    /// The host, followed by a colon and the port where one is set.
    pub open spec fn addr(self) -> Seq<char> {
        self.host + port_suffix(self.port)
    }

    /// The scheme, `https` unless set otherwise.
    pub open spec fn scheme_or_default(self) -> Seq<char> {
        match self.scheme {
            Some(scheme) => scheme,
            None => "https"@,
        }
    }

    /// The base address of the target: scheme, host and port.
    pub open spec fn url(self) -> Seq<char> {
        self.scheme_or_default() + "://"@ + self.host + port_suffix(self.port)
    }
}

impl View for Target {
    type V = TargetView;

    closed spec fn view(&self) -> TargetView {
        TargetView {
            host: self.host@,
            port: self.port,
            scheme: match self.scheme {
                Some(scheme) => Some(scheme@),
                None => None,
            },
            tls_insecure: self.tls_insecure,
            interval: self.interval,
            username: self.username@,
            password: self.password@,
            track_devices: match self.track_devices {
                Some(devices) => Some(views(devices@)),
                None => None,
            },
        }
    }
}

fn push_port(text: &mut String, port: &Option<u16>)
    ensures
        final(text)@ == old(text)@ + port_suffix(*port),
{
    match port {
        Some(port) => {
            text.push(':');
            let digits = decimal(*port as u64);
            text.append(digits.as_str());
            assert(text@ =~= old(text)@ + (seq![':'] + decimal_digits(*port as nat)));
        },
        None => {
            assert(text@ =~= old(text)@ + Seq::<char>::empty());
        },
    }
}

impl Target {
    /// A target with the given settings; `None` leaves a setting at its
    /// default.
    pub fn new(
        host: String,
        port: Option<u16>,
        scheme: Option<String>,
        tls_insecure: Option<bool>,
        interval: Option<u64>,
        username: String,
        password: String,
        track_devices: Option<Vec<String>>,
    ) -> (target: Target)
        ensures
            target@ == (TargetView {
                host: host@,
                port,
                scheme: match scheme {
                    Some(scheme) => Some(scheme@),
                    None => None,
                },
                tls_insecure,
                interval,
                username: username@,
                password: password@,
                track_devices: match track_devices {
                    Some(devices) => Some(views(devices@)),
                    None => None,
                },
            }),
    {
        Target { host, port, scheme, tls_insecure, interval, username, password, track_devices }
    }

    /// The host name or address of the target.
    pub fn host(&self) -> (r: &str)
        ensures
            r@ == self@.host,
    {
        self.host.as_str()
    }

    /// The host, followed by a colon and the port where one is set.
    pub fn addr(&self) -> (r: String)
        ensures
            r@ == self@.addr(),
    {
        let mut addr = self.host.clone();
        push_port(&mut addr, &self.port);
        addr
    }

    /// The base address of the target: the scheme, `https` unless set
    /// otherwise, then `://`, the host, and a colon and the port where one
    /// is set.
    pub fn url(&self) -> (r: String)
        ensures
            r@ == self@.url(),
    {
        let mut url = match &self.scheme {
            Some(scheme) => scheme.clone(),
            None => String::from_str("https"),
        };
        url.append("://");
        url.append(self.host.as_str());
        push_port(&mut url, &self.port);
        url
    }

    /// Whether certificates are accepted without verification; `false`
    /// unless set.
    pub fn tls_insecure(&self) -> (r: bool)
        ensures
            r == match self@.tls_insecure {
                Some(flag) => flag,
                None => false,
            },
    {
        match self.tls_insecure {
            Some(flag) => flag,
            None => false,
        }
    }

    /// The seconds between two polls; 30 unless set. Zero stands for manual
    /// mode.
    pub fn interval(&self) -> (r: u64)
        ensures
            r == match self@.interval {
                Some(seconds) => seconds,
                None => 30,
            },
    {
        match self.interval {
            Some(seconds) => seconds,
            None => 30,
        }
    }

    /// The user name of the login.
    pub fn username(&self) -> (r: &str)
        ensures
            r@ == self@.username,
    {
        self.username.as_str()
    }

    /// The password of the login.
    pub fn password(&self) -> (r: &str)
        ensures
            r@ == self@.password,
    {
        self.password.as_str()
    }

    /// The names of the devices whose presence is itself a metric.
    pub fn tracked_devices(&self) -> (r: &Option<Vec<String>>)
        ensures
            match r {
                Some(devices) => self@.track_devices == Some(views(devices@)),
                None => self@.track_devices is None,
            },
    {
        &self.track_devices
    }
}

/// The settings of the exporter.
#[derive(Debug, Clone)]
pub struct Config {
    ip: Option<String>,
    port: Option<u16>,
    log_level: Option<String>,
    targets: Vec<Target>,
}

/// Mathematical value of a [`Config`].
pub struct ConfigView {
    pub ip: Option<Seq<char>>,
    pub port: Option<u16>,
    pub log_level: Option<Seq<char>>,
    pub targets: Seq<TargetView>,
}

impl ConfigView {
    /// The address to listen on, `::` unless set.
    pub open spec fn ip_or_default(self) -> Seq<char> {
        match self.ip {
            Some(ip) => ip,
            None => "::"@,
        }
    }

    /// The port to listen on, 8080 unless set.
    pub open spec fn port_or_default(self) -> u16 {
        match self.port {
            Some(port) => port,
            None => 8080,
        }
    }

    /// The address and the port to listen on, with a colon between them.
    pub open spec fn bind_address(self) -> Seq<char> {
        self.ip_or_default() + seq![':'] + decimal_digits(self.port_or_default() as nat)
    }
}

impl View for Config {
    type V = ConfigView;

    closed spec fn view(&self) -> ConfigView {
        ConfigView {
            ip: match self.ip {
                Some(ip) => Some(ip@),
                None => None,
            },
            port: self.port,
            log_level: match self.log_level {
                Some(level) => Some(level@),
                None => None,
            },
            targets: Seq::new(self.targets@.len(), |i: int| self.targets@[i]@),
        }
    }
}

impl Config {
    /// Settings with the given values; `None` leaves a setting at its
    /// default.
    pub fn new(
        ip: Option<String>,
        port: Option<u16>,
        log_level: Option<String>,
        targets: Vec<Target>,
    ) -> (config: Config)
        ensures
            config@ == (ConfigView {
                ip: match ip {
                    Some(ip) => Some(ip@),
                    None => None,
                },
                port,
                log_level: match log_level {
                    Some(level) => Some(level@),
                    None => None,
                },
                targets: Seq::new(targets@.len(), |i: int| targets@[i]@),
            }),
    {
        Config { ip, port, log_level, targets }
    }

    /// The address to listen on, `::` unless set.
    pub fn ip(&self) -> (r: &str)
        ensures
            r@ == self@.ip_or_default(),
    {
        match &self.ip {
            Some(ip) => ip.as_str(),
            None => "::",
        }
    }

    /// The port to listen on, 8080 unless set.
    pub fn port(&self) -> (r: u16)
        ensures
            r == self@.port_or_default(),
    {
        match self.port {
            Some(port) => port,
            None => 8080,
        }
    }

    /// The log level, `info` unless set.
    pub fn log_level(&self) -> (r: &str)
        ensures
            r@ == match self@.log_level {
                Some(level) => level,
                None => "info"@,
            },
    {
        match &self.log_level {
            Some(level) => level.as_str(),
            None => "info",
        }
    }

    /// The targets to poll.
    pub fn targets(&self) -> (r: &Vec<Target>)
        ensures
            r@.len() == self@.targets.len(),
            forall|i: int| 0 <= i < r@.len() ==> (#[trigger] r@[i])@ == self@.targets[i],
    {
        &self.targets
    }

    /// The address and the port to listen on, with a colon between them.
    pub fn bind_address(&self) -> (r: String)
        ensures
            r@ == self@.bind_address(),
    {
        let mut address = String::from_str(self.ip());
        address.push(':');
        let digits = decimal(self.port() as u64);
        address.append(digits.as_str());
        address
    }
}

} // verus!
