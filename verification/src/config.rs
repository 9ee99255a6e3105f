//! The settings of the gateway, read from the variables of its environment.

use crate::assoc::{assoc, find_value};
use crate::text::{
    decimal_u32, distinct, first_occurrences, parse_u32, same_text, split, split_on,
    unique_texts,
};
use crate::upstream::copy_names;
use vstd::prelude::*;

verus! {

pub const ENV_BACKEND: &'static str = "IGLTC_BACKEND";

pub const ENV_BLOCKED_ROUTES: &'static str = "IGLTC_BLOCKED_ROUTES";

pub const ENV_LISTEN_ADDR: &'static str = "IGLTC_LISTEN_ADDR";

pub const ENV_RPC_ADDR: &'static str = "IGLTC_RPC_ADDR";

pub const ENV_MAX_CONNECTIONS: &'static str = "IGLTC_MAX_CONNECTIONS";

pub const ENV_MAX_SUBSCRIPTIONS_PER_CONNECTION: &'static str =
    "IGLTC_MAX_SUBSCRIPTIONS_PER_CONNECTION";

pub const ENV_MAX_REQUEST_BODY_SIZE_BYTES: &'static str = "IGLTC_MAX_REQUEST_BODY_SIZE_BYTES";

pub const ENV_MAX_RESPONSE_BODY_SIZE_BYTES: &'static str = "IGLTC_MAX_RESPONSE_BODY_SIZE_BYTES";

pub const ENV_WS_PING_INTERVAL_SECONDS: &'static str = "IGLTC_WS_PING_INTERVAL_SECONDS";

pub const DEFAULT_BLOCKED_ROUTES: &'static str = "";

pub const DEFAULT_LISTEN_ADDR: &'static str = "127.0.0.1:8080";

pub const DEFAULT_MAX_CONNECTIONS: u32 = 1000;

pub const DEFAULT_MAX_SUBSCRIPTIONS_PER_CONNECTION: u32 = 5;

pub const DEFAULT_MAX_REQUEST_BODY_SIZE_BYTES: u32 = 1024 * 1024;

pub const DEFAULT_MAX_RESPONSE_BODY_SIZE_BYTES: u32 = 1024 * 1024;

pub const DEFAULT_WS_PING_INTERVAL_SECONDS: u32 = 30;

/// The kinds of upstream node that the gateway can stand in front of.
#[derive(Clone, Copy, Debug, PartialEq, Eq, Structural)]
pub enum Backend {
    Tendermint34,
}

pub const DEFAULT_BACKEND: Backend = Backend::Tendermint34;

/// The backend that `name` names.
pub open spec fn backend_named(name: Seq<char>) -> Option<Backend> {
    if name == "Tendermint34"@ {
        Some(Backend::Tendermint34)
    } else {
        None
    }
}

impl Backend {
    /// The backend that `name` names, if it names one.
    pub fn parse(name: &str) -> (backend: Option<Backend>)
        ensures
            backend == backend_named(name@),
    {
        if same_text(name, "Tendermint34") {
            Some(Backend::Tendermint34)
        } else {
            None
        }
    }
}

/// The variables of an environment: names with their values.
pub type Vars = Seq<(Seq<char>, Seq<char>)>;

/// The settings of the gateway, as a mathematical value.
pub struct ConfigData {
    pub backend: Backend,
    pub blocked_routes: Seq<Seq<char>>,
    pub listen_addr: Seq<char>,
    pub rpc_addr: Seq<char>,
    pub max_connections: u32,
    pub max_subscriptions_per_connection: u32,
    pub max_request_body_size_bytes: u32,
    pub max_response_body_size_bytes: u32,
    pub ws_ping_interval_seconds: u32,
}

/// The settings of the gateway. No route is named twice among the blocked routes.
#[derive(Debug, PartialEq, Eq)]
pub struct Config {
    pub backend: Backend,
    pub blocked_routes: Vec<String>,
    pub listen_addr: String,
    pub rpc_addr: String,
    pub max_connections: u32,
    pub max_subscriptions_per_connection: u32,
    pub max_request_body_size_bytes: u32,
    pub max_response_body_size_bytes: u32,
    pub ws_ping_interval_seconds: u32,
}

impl Clone for Config {
    fn clone(&self) -> (copy: Self)
        ensures
            copy@ == self@,
    {
        Config {
            backend: self.backend,
            blocked_routes: copy_names(&self.blocked_routes),
            listen_addr: self.listen_addr.clone(),
            rpc_addr: self.rpc_addr.clone(),
            max_connections: self.max_connections,
            max_subscriptions_per_connection: self.max_subscriptions_per_connection,
            max_request_body_size_bytes: self.max_request_body_size_bytes,
            max_response_body_size_bytes: self.max_response_body_size_bytes,
            ws_ping_interval_seconds: self.ws_ping_interval_seconds,
        }
    }
}

impl View for Config {
    type V = ConfigData;

    open spec fn view(&self) -> ConfigData {
        ConfigData {
            backend: self.backend,
            blocked_routes: self.blocked_routes.deep_view(),
            listen_addr: self.listen_addr@,
            rpc_addr: self.rpc_addr@,
            max_connections: self.max_connections,
            max_subscriptions_per_connection: self.max_subscriptions_per_connection,
            max_request_body_size_bytes: self.max_request_body_size_bytes,
            max_response_body_size_bytes: self.max_response_body_size_bytes,
            ws_ping_interval_seconds: self.ws_ping_interval_seconds,
        }
    }
}

/// Why an environment gives no settings, as a mathematical value.
pub enum ConfigErrorData {
    UnknownBackend(Seq<char>),
    MissingRpcAddr,
    InvalidNumber { name: Seq<char>, value: Seq<char> },
}

/// Why an environment gives no settings.
#[derive(Debug, PartialEq, Eq)]
pub enum ConfigError {
    /// The backend variable names no backend; holds its value.
    UnknownBackend(String),
    /// The address of the upstream node, which is required, is not set.
    MissingRpcAddr,
    /// The variable `name` should hold a 32-bit number and holds `value`.
    InvalidNumber { name: String, value: String },
}

impl Config {
    /// No route is named twice among the blocked routes.
    pub open spec fn wf(&self) -> bool {
        distinct(self.blocked_routes.deep_view())
    }
}

impl View for ConfigError {
    type V = ConfigErrorData;

    open spec fn view(&self) -> ConfigErrorData {
        match self {
            ConfigError::UnknownBackend(name) => ConfigErrorData::UnknownBackend(name@),
            ConfigError::MissingRpcAddr => ConfigErrorData::MissingRpcAddr,
            ConfigError::InvalidNumber { name, value } => ConfigErrorData::InvalidNumber {
                name: name@,
                value: value@,
            },
        }
    }
}

/// The backend that `vars` asks for: the default where the variable is not set.
pub open spec fn backend_setting(vars: Vars) -> Result<Backend, ConfigErrorData> {
    match assoc(vars, ENV_BACKEND@) {
        None => Ok(DEFAULT_BACKEND),
        Some(name) => match backend_named(name) {
            Some(backend) => Ok(backend),
            None => Err(ConfigErrorData::UnknownBackend(name)),
        },
    }
}

/// The text that `vars` gives the variable `name`, or `default` where it is
/// not set.
pub open spec fn text_setting(vars: Vars, name: Seq<char>, default: Seq<char>) -> Seq<char> {
    match assoc(vars, name) {
        Some(value) => value,
        None => default,
    }
}

/// The number that `vars` gives the variable `name`, or `default` where it is
/// not set.
pub open spec fn number_setting(vars: Vars, name: Seq<char>, default: u32) -> Result<
    u32,
    ConfigErrorData,
> {
    match assoc(vars, name) {
        None => Ok(default),
        Some(value) => match decimal_u32(value) {
            Some(n) => Ok(n),
            None => Err(ConfigErrorData::InvalidNumber { name, value }),
        },
    }
}

/// The settings that `vars` gives, or the first fault in the order of the
/// fields: the backend, the address of the upstream node, then the numbers.
/// The blocked routes are the pieces between the commas of their variable,
/// each once; every setting but the address of the upstream node has a default.
pub open spec fn config_of(vars: Vars) -> Result<ConfigData, ConfigErrorData> {
    let backend = backend_setting(vars);
    let connections = number_setting(vars, ENV_MAX_CONNECTIONS@, DEFAULT_MAX_CONNECTIONS);
    let subscriptions = number_setting(
        vars,
        ENV_MAX_SUBSCRIPTIONS_PER_CONNECTION@,
        DEFAULT_MAX_SUBSCRIPTIONS_PER_CONNECTION,
    );
    let request_size = number_setting(
        vars,
        ENV_MAX_REQUEST_BODY_SIZE_BYTES@,
        DEFAULT_MAX_REQUEST_BODY_SIZE_BYTES,
    );
    let response_size = number_setting(
        vars,
        ENV_MAX_RESPONSE_BODY_SIZE_BYTES@,
        DEFAULT_MAX_RESPONSE_BODY_SIZE_BYTES,
    );
    let ping = number_setting(
        vars,
        ENV_WS_PING_INTERVAL_SECONDS@,
        DEFAULT_WS_PING_INTERVAL_SECONDS,
    );
    if backend is Err {
        Err(backend->Err_0)
    } else if assoc(vars, ENV_RPC_ADDR@) is None {
        Err(ConfigErrorData::MissingRpcAddr)
    } else if connections is Err {
        Err(connections->Err_0)
    } else if subscriptions is Err {
        Err(subscriptions->Err_0)
    } else if request_size is Err {
        Err(request_size->Err_0)
    } else if response_size is Err {
        Err(response_size->Err_0)
    } else if ping is Err {
        Err(ping->Err_0)
    } else {
        Ok(
            ConfigData {
                backend: backend->Ok_0,
                blocked_routes: first_occurrences(
                    split_on(text_setting(vars, ENV_BLOCKED_ROUTES@, DEFAULT_BLOCKED_ROUTES@), ','),
                ),
                listen_addr: text_setting(vars, ENV_LISTEN_ADDR@, DEFAULT_LISTEN_ADDR@),
                rpc_addr: assoc(vars, ENV_RPC_ADDR@)->Some_0,
                max_connections: connections->Ok_0,
                max_subscriptions_per_connection: subscriptions->Ok_0,
                max_request_body_size_bytes: request_size->Ok_0,
                max_response_body_size_bytes: response_size->Ok_0,
                ws_ping_interval_seconds: ping->Ok_0,
            },
        )
    }
}

/// The value that `vars` gives the variable `name`.
pub fn var<'a>(vars: &'a Vec<(String, String)>, name: &str) -> (value: Option<&'a str>)
    ensures
        match value {
            Some(v) => assoc(vars.deep_view(), name@) == Some(v@),
            None => assoc(vars.deep_view(), name@) is None,
        },
{
    match find_value(vars, name) {
        Some(value) => Some(value.as_str()),
        None => None,
    }
}

/// The number that `vars` gives the variable `name`, or `default`.
pub fn number_var(vars: &Vec<(String, String)>, name: &str, default: u32) -> (r: Result<
    u32,
    ConfigError,
>)
    ensures
        match r {
            Ok(n) => number_setting(vars.deep_view(), name@, default) == Ok::<u32, ConfigErrorData>(
                n,
            ),
            Err(e) => number_setting(vars.deep_view(), name@, default) == Err::<
                u32,
                ConfigErrorData,
            >(e@),
        },
{
    match var(vars, name) {
        None => Ok(default),
        Some(value) => match parse_u32(value) {
            Some(n) => Ok(n),
            None => Err(
                ConfigError::InvalidNumber { name: name.to_owned(), value: value.to_owned() },
            ),
        },
    }
}

impl Config {
    /// The settings that the variables `vars` of an environment give.
    pub fn from_vars(vars: &Vec<(String, String)>) -> (r: Result<Config, ConfigError>)
        ensures
            match r {
                Ok(config) => config.wf() && config_of(vars.deep_view()) == Ok::<
                    ConfigData,
                    ConfigErrorData,
                >(config@),
                Err(e) => config_of(vars.deep_view()) == Err::<ConfigData, ConfigErrorData>(e@),
            },
    {
        let backend = match var(vars, ENV_BACKEND) {
            None => DEFAULT_BACKEND,
            Some(name) => match Backend::parse(name) {
                Some(backend) => backend,
                None => {
                    return Err(ConfigError::UnknownBackend(name.to_owned()));
                },
            },
        };
        let blocked = match var(vars, ENV_BLOCKED_ROUTES) {
            Some(value) => split(value, ','),
            None => split(DEFAULT_BLOCKED_ROUTES, ','),
        };
        let blocked_routes = unique_texts(&blocked);
        let listen_addr = match var(vars, ENV_LISTEN_ADDR) {
            Some(value) => value.to_owned(),
            None => DEFAULT_LISTEN_ADDR.to_owned(),
        };
        let rpc_addr = match var(vars, ENV_RPC_ADDR) {
            Some(value) => value.to_owned(),
            None => {
                return Err(ConfigError::MissingRpcAddr);
            },
        };
        let max_connections = match number_var(vars, ENV_MAX_CONNECTIONS, DEFAULT_MAX_CONNECTIONS) {
            Ok(n) => n,
            Err(e) => {
                return Err(e);
            },
        };
        let max_subscriptions_per_connection = match number_var(
            vars,
            ENV_MAX_SUBSCRIPTIONS_PER_CONNECTION,
            DEFAULT_MAX_SUBSCRIPTIONS_PER_CONNECTION,
        ) {
            Ok(n) => n,
            Err(e) => {
                return Err(e);
            },
        };
        let max_request_body_size_bytes = match number_var(
            vars,
            ENV_MAX_REQUEST_BODY_SIZE_BYTES,
            DEFAULT_MAX_REQUEST_BODY_SIZE_BYTES,
        ) {
            Ok(n) => n,
            Err(e) => {
                return Err(e);
            },
        };
        let max_response_body_size_bytes = match number_var(
            vars,
            ENV_MAX_RESPONSE_BODY_SIZE_BYTES,
            DEFAULT_MAX_RESPONSE_BODY_SIZE_BYTES,
        ) {
            Ok(n) => n,
            Err(e) => {
                return Err(e);
            },
        };
        let ws_ping_interval_seconds = match number_var(
            vars,
            ENV_WS_PING_INTERVAL_SECONDS,
            DEFAULT_WS_PING_INTERVAL_SECONDS,
        ) {
            Ok(n) => n,
            Err(e) => {
                return Err(e);
            },
        };
        Ok(
            Config {
                backend,
                blocked_routes,
                listen_addr,
                rpc_addr,
                max_connections,
                max_subscriptions_per_connection,
                max_request_body_size_bytes,
                max_response_body_size_bytes,
                ws_ping_interval_seconds,
            },
        )
    }
}

} // verus!
