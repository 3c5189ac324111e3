//! Resolution of the server's settings: each one is taken from its
//! command-line flag, else from its environment variable, else from its
//! default.

use vstd::prelude::*;
use vstd::string::StringExecFns;
use crate::decimal::{parse_unsigned, parsed_unsigned};

verus! {

pub const DEFAULT_KEY_FILE: &'static str = "key.pem";

pub const DEFAULT_CERT_FILE: &'static str = "cert.pem";

pub const DEFAULT_IP: &'static str = "0.0.0.0";

pub const DEFAULT_HTTP_PORT: u16 = 3000;

/// The HTTPS port when none is given: no TLS listener.
pub const DEFAULT_HTTPS_PORT: u16 = 0;

/// The worker count when none is given: the runtime picks.
pub const DEFAULT_WORKERS: usize = 0;

pub const DEFAULT_CONNECTIONS: usize = 25600;

/// The largest value of a port.
pub const PORT_MAX: u16 = 65535;

#[derive(Clone, Copy, Debug, PartialEq, Eq, Structural)]
pub enum Setting {
    KeyFile,
    CertFile,
    ServerIp,
    HttpPort,
    HttpsPort,
    Workers,
    MaxConnections,
}

pub open spec fn flag_of(s: Setting) -> char {
    match s {
        Setting::KeyFile => 'k',
        Setting::CertFile => 'c',
        Setting::ServerIp => 'i',
        Setting::HttpPort => 'p',
        Setting::HttpsPort => 's',
        Setting::Workers => 'w',
        Setting::MaxConnections => 'm',
    }
}

pub open spec fn env_key_of(s: Setting) -> Seq<char> {
    match s {
        Setting::KeyFile => "KEY_FILE"@,
        Setting::CertFile => "CERT_FILE"@,
        Setting::ServerIp => "SERVER_IP"@,
        Setting::HttpPort => "HTTP_PORT"@,
        Setting::HttpsPort => "HTTPS_PORT"@,
        Setting::Workers => "WORKERS"@,
        Setting::MaxConnections => "CONNECTIONS"@,
    }
}

impl Setting {
    /// The short command-line flag of the setting.
    pub fn flag(&self) -> (r: char)
        ensures
            r == flag_of(*self),
    {
        match self {
            Setting::KeyFile => 'k',
            Setting::CertFile => 'c',
            Setting::ServerIp => 'i',
            Setting::HttpPort => 'p',
            Setting::HttpsPort => 's',
            Setting::Workers => 'w',
            Setting::MaxConnections => 'm',
        }
    }

    /// The environment variable that the setting falls back on.
    pub fn env_key(&self) -> (r: &'static str)
        ensures
            r@ == env_key_of(*self),
    {
        match self {
            Setting::KeyFile => "KEY_FILE",
            Setting::CertFile => "CERT_FILE",
            Setting::ServerIp => "SERVER_IP",
            Setting::HttpPort => "HTTP_PORT",
            Setting::HttpsPort => "HTTPS_PORT",
            Setting::Workers => "WORKERS",
            Setting::MaxConnections => "CONNECTIONS",
        }
    }
}

/// What was found for one setting: the value of its flag, if the flag was
/// given, and the value of its environment variable, if it was set.
#[derive(Clone, Debug)]
pub struct SettingSource {
    pub flag: Option<String>,
    pub env: Option<String>,
}

/// What was found for every setting.
#[derive(Clone, Debug)]
pub struct ConfigInput {
    pub key_file: SettingSource,
    pub cert_file: SettingSource,
    pub server_ip: SettingSource,
    pub http_port: SettingSource,
    pub https_port: SettingSource,
    pub workers: SettingSource,
    pub max_connections: SettingSource,
}

/// The settings the server runs with, resolved once at startup.
#[derive(Clone, Debug)]
pub struct ServerConfig {
    pub key_file: String,
    pub cert_file: String,
    pub server_ip: String,
    pub http_port: u16,
    pub https_port: u16,
    pub workers: usize,
    pub max_connections: usize,
}

pub ghost struct ServerConfigView {
    pub key_file: Seq<char>,
    pub cert_file: Seq<char>,
    pub server_ip: Seq<char>,
    pub http_port: u16,
    pub https_port: u16,
    pub workers: usize,
    pub max_connections: usize,
}

impl View for ServerConfig {
    type V = ServerConfigView;

    open spec fn view(&self) -> ServerConfigView {
        ServerConfigView {
            key_file: self.key_file@,
            cert_file: self.cert_file@,
            server_ip: self.server_ip@,
            http_port: self.http_port,
            https_port: self.https_port,
            workers: self.workers,
            max_connections: self.max_connections,
        }
    }
}

/// A number setting whose text is not a number of its type.
#[derive(Clone, Debug)]
pub struct ConfigError {
    pub setting: Setting,
    pub value: String,
}

/// The text a setting takes: its flag's value, else its environment value.
pub open spec fn chosen(src: SettingSource) -> Option<Seq<char>> {
    match src.flag {
        Some(f) => Some(f@),
        None => match src.env {
            Some(e) => Some(e@),
            None => None,
        },
    }
}

pub open spec fn text_setting(src: SettingSource, default: Seq<char>) -> Seq<char> {
    match chosen(src) {
        Some(t) => t,
        None => default,
    }
}

/// The value of a number setting no greater than `max`; `None` where its
/// text is not such a number.
pub open spec fn number_setting(src: SettingSource, default: nat, max: nat) -> Option<nat> {
    match chosen(src) {
        Some(t) => parsed_unsigned(t, max),
        None => Some(default),
    }
}

pub open spec fn http_port_of(input: ConfigInput) -> Option<nat> {
    number_setting(input.http_port, DEFAULT_HTTP_PORT as nat, PORT_MAX as nat)
}

pub open spec fn https_port_of(input: ConfigInput) -> Option<nat> {
    number_setting(input.https_port, DEFAULT_HTTPS_PORT as nat, PORT_MAX as nat)
}

pub open spec fn workers_of(input: ConfigInput) -> Option<nat> {
    number_setting(input.workers, DEFAULT_WORKERS as nat, usize::MAX as nat)
}

pub open spec fn connections_of(input: ConfigInput) -> Option<nat> {
    number_setting(input.max_connections, DEFAULT_CONNECTIONS as nat, usize::MAX as nat)
}

/// The configuration `input` resolves to, or the first number setting, in
/// the order port, HTTPS port, workers, connections, that does not parse.
pub open spec fn resolved_config(input: ConfigInput) -> Result<ServerConfigView, Setting> {
    if http_port_of(input) is None {
        Err(Setting::HttpPort)
    } else if https_port_of(input) is None {
        Err(Setting::HttpsPort)
    } else if workers_of(input) is None {
        Err(Setting::Workers)
    } else if connections_of(input) is None {
        Err(Setting::MaxConnections)
    } else {
        Ok(
            ServerConfigView {
                key_file: text_setting(input.key_file, DEFAULT_KEY_FILE@),
                cert_file: text_setting(input.cert_file, DEFAULT_CERT_FILE@),
                server_ip: text_setting(input.server_ip, DEFAULT_IP@),
                http_port: http_port_of(input)->0 as u16,
                https_port: https_port_of(input)->0 as u16,
                workers: workers_of(input)->0 as usize,
                max_connections: connections_of(input)->0 as usize,
            },
        )
    }
}

pub open spec fn source_of(input: ConfigInput, s: Setting) -> SettingSource {
    match s {
        Setting::KeyFile => input.key_file,
        Setting::CertFile => input.cert_file,
        Setting::ServerIp => input.server_ip,
        Setting::HttpPort => input.http_port,
        Setting::HttpsPort => input.https_port,
        Setting::Workers => input.workers,
        Setting::MaxConnections => input.max_connections,
    }
}

pub(crate) fn copy_text(s: &String) -> (r: String)
    ensures
        r@ == s@,
{
    String::from_str(s.as_str())
}

/// Resolves a text setting: its flag, else its environment variable, else
/// `default`.
pub fn resolve_text(src: &SettingSource, default: &str) -> (r: String)
    ensures
        r@ == text_setting(*src, default@),
{
    match &src.flag {
        Some(f) => copy_text(f),
        None => match &src.env {
            Some(e) => copy_text(e),
            None => String::from_str(default),
        },
    }
}

/// Resolves a number setting no greater than `max`: its flag, else its
/// environment variable, else `default`. Text that is not such a number is
/// an error that names the setting and holds the text.
pub fn resolve_number(src: &SettingSource, setting: Setting, default: usize, max: usize) -> (r:
    Result<usize, ConfigError>)
    requires
        default <= max,
    ensures
        r matches Ok(v) ==> number_setting(*src, default as nat, max as nat) == Some(v as nat),
        r matches Err(e) ==> number_setting(*src, default as nat, max as nat) is None
            && e.setting == setting && chosen(*src) == Some(e.value@),
{
    let text = match &src.flag {
        Some(f) => f,
        None => match &src.env {
            Some(e) => e,
            None => {
                return Ok(default);
            },
        },
    };
    match parse_unsigned(text.as_str(), max) {
        Some(v) => Ok(v),
        None => Err(ConfigError { setting, value: copy_text(text) }),
    }
}

/// Resolves every setting. Succeeds exactly when each number setting that
/// was given is a number of its type; otherwise names the first that is
/// not, in the order port, HTTPS port, workers, connections.
pub fn resolve_config(input: &ConfigInput) -> (r: Result<ServerConfig, ConfigError>)
    ensures
        r matches Ok(c) ==> resolved_config(*input) == Ok::<ServerConfigView, Setting>(c@),
        r matches Err(e) ==> resolved_config(*input) == Err::<ServerConfigView, Setting>(e.setting)
            && chosen(source_of(*input, e.setting)) == Some(e.value@),
{
    let key_file = resolve_text(&input.key_file, DEFAULT_KEY_FILE);
    let cert_file = resolve_text(&input.cert_file, DEFAULT_CERT_FILE);
    let server_ip = resolve_text(&input.server_ip, DEFAULT_IP);
    let http_port = resolve_number(
        &input.http_port,
        Setting::HttpPort,
        DEFAULT_HTTP_PORT as usize,
        PORT_MAX as usize,
    )?;
    let https_port = resolve_number(
        &input.https_port,
        Setting::HttpsPort,
        DEFAULT_HTTPS_PORT as usize,
        PORT_MAX as usize,
    )?;
    let workers = resolve_number(&input.workers, Setting::Workers, DEFAULT_WORKERS, usize::MAX)?;
    let max_connections = resolve_number(
        &input.max_connections,
        Setting::MaxConnections,
        DEFAULT_CONNECTIONS,
        usize::MAX,
    )?;
    let c = ServerConfig {
        key_file,
        cert_file,
        server_ip,
        http_port: http_port as u16,
        https_port: https_port as u16,
        workers,
        max_connections,
    };
    assert(resolved_config(*input) == Ok::<ServerConfigView, Setting>(c@));
    Ok(c)
}

/// Each text setting of a resolved configuration is its flag's value when
/// the flag was given, else its environment variable's value when that was
/// set, else its default; each number setting is the number so chosen.
pub proof fn flag_before_env_before_default(input: ConfigInput)
    ensures
        resolved_config(input) matches Ok(c) ==> {
            &&& input.server_ip.flag matches Some(f) ==> c.server_ip == f@
            &&& input.server_ip.flag is None ==> (input.server_ip.env matches Some(e) ==> c.server_ip == e@)
            &&& (input.server_ip.flag is None && input.server_ip.env is None) ==> c.server_ip == DEFAULT_IP@
            &&& input.key_file.flag matches Some(f) ==> c.key_file == f@
            &&& input.key_file.flag is None ==> (input.key_file.env matches Some(e) ==> c.key_file == e@)
            &&& (input.key_file.flag is None && input.key_file.env is None) ==> c.key_file == DEFAULT_KEY_FILE@
            &&& input.cert_file.flag matches Some(f) ==> c.cert_file == f@
            &&& input.cert_file.flag is None ==> (input.cert_file.env matches Some(e) ==> c.cert_file == e@)
            &&& (input.cert_file.flag is None && input.cert_file.env is None) ==> c.cert_file == DEFAULT_CERT_FILE@
            &&& input.http_port.flag matches Some(f) ==> Some(c.http_port as nat) == parsed_unsigned(f@, PORT_MAX as nat)
            &&& input.http_port.flag is None ==> (input.http_port.env matches Some(e) ==> Some(c.http_port as nat) == parsed_unsigned(e@, PORT_MAX as nat))
            &&& (input.http_port.flag is None && input.http_port.env is None) ==> c.http_port == DEFAULT_HTTP_PORT
            &&& input.https_port.flag matches Some(f) ==> Some(c.https_port as nat) == parsed_unsigned(f@, PORT_MAX as nat)
            &&& input.https_port.flag is None ==> (input.https_port.env matches Some(e) ==> Some(c.https_port as nat) == parsed_unsigned(e@, PORT_MAX as nat))
            &&& (input.https_port.flag is None && input.https_port.env is None) ==> c.https_port == DEFAULT_HTTPS_PORT
            &&& input.workers.flag matches Some(f) ==> Some(c.workers as nat) == parsed_unsigned(f@, usize::MAX as nat)
            &&& input.workers.flag is None ==> (input.workers.env matches Some(e) ==> Some(c.workers as nat) == parsed_unsigned(e@, usize::MAX as nat))
            &&& (input.workers.flag is None && input.workers.env is None) ==> c.workers == DEFAULT_WORKERS
            &&& input.max_connections.flag matches Some(f) ==> Some(c.max_connections as nat) == parsed_unsigned(f@, usize::MAX as nat)
            &&& input.max_connections.flag is None ==> (input.max_connections.env matches Some(e) ==> Some(c.max_connections as nat) == parsed_unsigned(e@, usize::MAX as nat))
            &&& (input.max_connections.flag is None && input.max_connections.env is None) ==> c.max_connections == DEFAULT_CONNECTIONS
        },
{
}

/// Each setting is resolved on its own: two inputs that agree on what was
/// found for one setting, and that both resolve, agree on its value.
pub proof fn settings_resolve_independently(a: ConfigInput, b: ConfigInput, s: Setting)
    requires
        source_of(a, s) == source_of(b, s),
        resolved_config(a) is Ok,
        resolved_config(b) is Ok,
    ensures
        s == Setting::KeyFile ==> resolved_config(a)->Ok_0.key_file == resolved_config(b)->Ok_0.key_file,
        s == Setting::CertFile ==> resolved_config(a)->Ok_0.cert_file == resolved_config(b)->Ok_0.cert_file,
        s == Setting::ServerIp ==> resolved_config(a)->Ok_0.server_ip == resolved_config(b)->Ok_0.server_ip,
        s == Setting::HttpPort ==> resolved_config(a)->Ok_0.http_port == resolved_config(b)->Ok_0.http_port,
        s == Setting::HttpsPort ==> resolved_config(a)->Ok_0.https_port == resolved_config(b)->Ok_0.https_port,
        s == Setting::Workers ==> resolved_config(a)->Ok_0.workers == resolved_config(b)->Ok_0.workers,
        s == Setting::MaxConnections ==> resolved_config(a)->Ok_0.max_connections == resolved_config(b)->Ok_0.max_connections,
{
}

} // verus!
