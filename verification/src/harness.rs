//! What a harness is made of: the logging it starts, the steps by which the
//! server is assembled, the address the client is bound to, and the database
//! that an isolated harness opens. The functions here decide; whoever builds
//! the server carries the plan out, step by step.

use crate::text::{ascii_case_eq, starts_with};
use std::str::FromStr;
use vstd::prelude::*;

verus! {

/// The path of the route that every server answers.
pub const HEALTH_PATH: &'static str = "/monitor/ping";

/// What the health route answers.
pub const HEALTH_BODY: &'static str = "preroll_test_utils";

/// The address a client is bound to. No socket listens on it.
pub const BASE_URL: &'static str = "http://localhost:8080";

/// The environment that is taken where none is named.
pub const DEFAULT_ENVIRONMENT: &'static str = "development";

/// Environments whose name starts so log as a production service does.
pub const PRODUCTION_PREFIX: &'static str = "prod";

/// The host of the database of an isolated harness.
pub const DATABASE_HOST: &'static str = "localhost";

/// The name of the database of an isolated harness.
pub const DATABASE_NAME: &'static str = "database_test";

/// How many connections the pool of an isolated harness may open.
pub const MAX_CONNECTIONS: u32 = 5;

/// A severity filter for the log.
#[derive(Clone, Copy, Debug, PartialEq, Eq, Structural)]
pub enum LogLevel {
    Off,
    Error,
    Warn,
    Info,
    Debug,
    Trace,
}

impl LogLevel {
    /// The name of the level, as `log` writes it.
    pub open spec fn name(self) -> Seq<char> {
        match self {
            LogLevel::Off => "OFF"@,
            LogLevel::Error => "ERROR"@,
            LogLevel::Warn => "WARN"@,
            LogLevel::Info => "INFO"@,
            LogLevel::Debug => "DEBUG"@,
            LogLevel::Trace => "TRACE"@,
        }
    }
}

/// The level that `text` names, up to the case of ASCII letters.
pub open spec fn level_named(text: Seq<char>) -> Option<LogLevel> {
    if ascii_case_eq(LogLevel::Off.name(), text) {
        Some(LogLevel::Off)
    } else if ascii_case_eq(LogLevel::Error.name(), text) {
        Some(LogLevel::Error)
    } else if ascii_case_eq(LogLevel::Warn.name(), text) {
        Some(LogLevel::Warn)
    } else if ascii_case_eq(LogLevel::Info.name(), text) {
        Some(LogLevel::Info)
    } else if ascii_case_eq(LogLevel::Debug.name(), text) {
        Some(LogLevel::Debug)
    } else if ascii_case_eq(LogLevel::Trace.name(), text) {
        Some(LogLevel::Trace)
    } else {
        None
    }
}

/// Calls `log::LevelFilter::from_str`, which takes the first of the names
/// OFF, ERROR, WARN, INFO, DEBUG, TRACE that matches `text` without regard to
/// ASCII case.
#[verifier::external_body]
fn parse_level(text: &str) -> (level: Option<LogLevel>)
    ensures
        level == level_named(text@),
{
    match log::LevelFilter::from_str(text) {
        Ok(log::LevelFilter::Off) => Some(LogLevel::Off),
        Ok(log::LevelFilter::Error) => Some(LogLevel::Error),
        Ok(log::LevelFilter::Warn) => Some(LogLevel::Warn),
        Ok(log::LevelFilter::Info) => Some(LogLevel::Info),
        Ok(log::LevelFilter::Debug) => Some(LogLevel::Debug),
        Ok(log::LevelFilter::Trace) => Some(LogLevel::Trace),
        Err(_) => None,
    }
}

/// `surf::Url`, carried through as it is.
#[verifier::external_type_specification]
#[verifier::external_body]
pub struct ExUrl(surf::Url);

/// What `surf::Url::parse` makes of `text`: the address, or nothing where it
/// reports an error.
pub uninterp spec fn parsed_url(text: Seq<char>) -> Option<surf::Url>;

/// Calls `surf::Url::parse` and drops the error. `parsed_url` names the
/// outcome.
#[verifier::external_body]
fn parse_url(text: &str) -> (url: Option<surf::Url>)
    ensures
        url == parsed_url(text@),
{
    surf::Url::parse(text).ok()
}

/// How the log is written.
#[derive(Clone, Copy, Debug, PartialEq, Eq, Structural)]
pub enum LogFormat {
    /// One JSON object per line and no colour, as a production service logs.
    Json,
    /// Lines for a person to read.
    Pretty,
}

/// The logging of a harness.
#[derive(Clone, Copy, Debug, PartialEq, Eq, Structural)]
pub struct Logging {
    pub level: LogLevel,
    pub format: LogFormat,
}

/// A unit of the middleware chain.
#[derive(Clone, Copy, Debug, PartialEq, Eq, Structural)]
pub enum Stage {
    /// Tags the request and the response with a request id.
    RequestId,
    /// Logs the request and its outcome.
    Logging,
    /// Turns a failure into the structured error envelope.
    ErrorFormatting,
    /// Attaches the shared connection wrapper to the request.
    Transaction,
}

/// One step of assembling a server.
#[derive(Clone, Copy, Debug, PartialEq, Eq, Structural)]
pub enum SetupStep {
    /// Installs a unit of the middleware chain behind those installed so far.
    Install(Stage),
    /// Registers the health route.
    HealthRoute,
    /// Hands the server to the caller's function, which registers its routes.
    UserRoutes,
    /// Opens the pool and begins the one transaction of the test.
    BeginTransaction,
}

/// Why a harness cannot be set up.
#[derive(Clone, Copy, Debug, PartialEq, Eq, Structural)]
pub enum SetupError {
    /// The log level names no level.
    InvalidLogLevel,
    /// The base address is no URL.
    InvalidBaseUrl,
}

/// The database of an isolated harness.
#[derive(Clone, Copy, Debug)]
pub struct DatabaseSettings {
    pub host: &'static str,
    pub database: &'static str,
    pub max_connections: u32,
    pub statement_level: LogLevel,
}

/// How a server is assembled.
#[derive(Debug)]
pub struct ServerPlan {
    pub logging: Logging,
    pub steps: Vec<SetupStep>,
}

/// How a client and its server are assembled.
#[derive(Debug)]
pub struct ClientPlan {
    pub server: ServerPlan,
    pub base_url: surf::Url,
}

/// How an isolated harness is assembled.
#[derive(Debug)]
pub struct IsolatedPlan {
    pub client: ClientPlan,
    pub database: DatabaseSettings,
}

/// The level for the value of the log-level variable: off where it is not
/// set, else the level it names, if it names one.
pub open spec fn resolved_level(variable: Option<&str>) -> Option<LogLevel> {
    match variable {
        None => Some(LogLevel::Off),
        Some(text) => level_named(text@),
    }
}

/// The format for the value of the environment variable: the production
/// format where the name starts with `prod`; an unset variable counts as
/// `development`.
pub open spec fn selected_format(variable: Option<&str>) -> LogFormat {
    let environment = match variable {
        None => DEFAULT_ENVIRONMENT@,
        Some(text) => text@,
    };
    if PRODUCTION_PREFIX@.is_prefix_of(environment) {
        LogFormat::Json
    } else {
        LogFormat::Pretty
    }
}

/// The steps of every server: the chain in its fixed order, then the health
/// route, then the caller's routes.
pub open spec fn server_steps() -> Seq<SetupStep> {
    seq![
        SetupStep::Install(Stage::RequestId),
        SetupStep::Install(Stage::Logging),
        SetupStep::Install(Stage::ErrorFormatting),
        SetupStep::HealthRoute,
        SetupStep::UserRoutes,
    ]
}

/// The steps of an isolated server: those of every server, then the
/// transaction and the unit that attaches it.
pub open spec fn isolated_steps() -> Seq<SetupStep> {
    server_steps().push(SetupStep::BeginTransaction).push(SetupStep::Install(Stage::Transaction))
}

/// The middleware chain that a list of steps installs, in its order.
pub open spec fn chain_of(steps: Seq<SetupStep>) -> Seq<Stage>
    decreases steps.len(),
{
    if steps.len() == 0 {
        Seq::empty()
    } else {
        match steps.last() {
            SetupStep::Install(stage) => chain_of(steps.drop_last()).push(stage),
            _ => chain_of(steps.drop_last()),
        }
    }
}

/// Resolves the log-level variable.
pub fn resolve_level(variable: Option<&str>) -> (r: Result<LogLevel, SetupError>)
    ensures
        r matches Ok(level) ==> resolved_level(variable) == Some(level),
        r matches Err(why) ==> resolved_level(variable) is None && why
            == SetupError::InvalidLogLevel,
{
    match variable {
        None => Ok(LogLevel::Off),
        Some(text) => match parse_level(text) {
            Some(level) => Ok(level),
            None => Err(SetupError::InvalidLogLevel),
        },
    }
}

/// Selects the log format for the environment variable.
pub fn select_format(variable: Option<&str>) -> (format: LogFormat)
    ensures
        format == selected_format(variable),
{
    let environment = match variable {
        None => DEFAULT_ENVIRONMENT,
        Some(text) => text,
    };
    if starts_with(environment, PRODUCTION_PREFIX) {
        LogFormat::Json
    } else {
        LogFormat::Pretty
    }
}

/// The first five steps, which every server takes.
fn common_steps() -> (steps: Vec<SetupStep>)
    ensures
        steps@ == server_steps(),
{
    let mut steps: Vec<SetupStep> = Vec::new();
    steps.push(SetupStep::Install(Stage::RequestId));
    steps.push(SetupStep::Install(Stage::Logging));
    steps.push(SetupStep::Install(Stage::ErrorFormatting));
    steps.push(SetupStep::HealthRoute);
    steps.push(SetupStep::UserRoutes);
    assert(steps@ =~= server_steps());
    steps
}

impl ServerPlan {
    /// The middleware chain that the plan installs, first unit first.
    pub fn chain(&self) -> (chain: Vec<Stage>)
        ensures
            chain@ == chain_of(self.steps@),
    {
        let mut chain: Vec<Stage> = Vec::new();
        let mut i: usize = 0;
        assert(self.steps@.take(0) =~= Seq::<SetupStep>::empty());
        while i < self.steps.len()
            invariant
                i <= self.steps.len(),
                chain@ == chain_of(self.steps@.take(i as int)),
            decreases self.steps.len() - i,
        {
            assert(self.steps@.take(i + 1).drop_last() =~= self.steps@.take(i as int));
            assert(self.steps@.take(i + 1).last() == self.steps@[i as int]);
            match self.steps[i] {
                SetupStep::Install(stage) => {
                    chain.push(stage);
                },
                _ => {},
            }
            i = i + 1;
        }
        assert(self.steps@.take(i as int) =~= self.steps@);
        chain
    }
}

/// Plans a server from the values of the log-level and the environment
/// variable. The plan installs request-id tagging, logging and error
/// formatting in that order, registers the health route, and only then lets
/// the caller register routes. An invalid log level fails the setup.
pub fn create_server(log_level: Option<&str>, environment: Option<&str>) -> (r: Result<
    ServerPlan,
    SetupError,
>)
    ensures
        r is Ok <==> resolved_level(log_level) is Some,
        r matches Ok(plan) ==> plan.logging == (Logging {
            level: resolved_level(log_level)->Some_0,
            format: selected_format(environment),
        }) && plan.steps@ == server_steps(),
        r matches Err(why) ==> why == SetupError::InvalidLogLevel,
{
    let level = match resolve_level(log_level) {
        Ok(level) => level,
        Err(why) => {
            return Err(why);
        },
    };
    Ok(
        ServerPlan {
            logging: Logging { level, format: select_format(environment) },
            steps: common_steps(),
        },
    )
}

/// Binds a planned server to the address that the parser made of the base
/// address, or fails where it made none.
pub fn bind_client(server: ServerPlan, base_url: Option<surf::Url>) -> (r: Result<
    ClientPlan,
    SetupError,
>)
    ensures
        r is Ok <==> base_url is Some,
        r matches Ok(plan) ==> plan.server == server && Some(plan.base_url) == base_url,
        r matches Err(why) ==> why == SetupError::InvalidBaseUrl,
{
    match base_url {
        Some(base_url) => Ok(ClientPlan { server, base_url }),
        None => Err(SetupError::InvalidBaseUrl),
    }
}

/// Plans a server and a client that talks to it in process, bound to
/// `BASE_URL`. The log level is judged before the address.
pub fn create_client(log_level: Option<&str>, environment: Option<&str>) -> (r: Result<
    ClientPlan,
    SetupError,
>)
    ensures
        r is Ok <==> resolved_level(log_level) is Some && parsed_url(BASE_URL@) is Some,
        r matches Ok(plan) ==> Some(plan.base_url) == parsed_url(BASE_URL@)
            && plan.server.logging == (Logging {
            level: resolved_level(log_level)->Some_0,
            format: selected_format(environment),
        }) && plan.server.steps@ == server_steps(),
        r matches Err(why) ==> why == if resolved_level(log_level) is None {
            SetupError::InvalidLogLevel
        } else {
            SetupError::InvalidBaseUrl
        },
{
    let server = match create_server(log_level, environment) {
        Ok(server) => server,
        Err(why) => {
            return Err(why);
        },
    };
    bind_client(server, parse_url(BASE_URL))
}

/// Plans an isolated harness: the server of `create_client`, then one
/// transaction on the test database and the unit that attaches it to every
/// request.
pub fn create_client_and_postgres(log_level: Option<&str>, environment: Option<&str>) -> (r:
    Result<IsolatedPlan, SetupError>)
    ensures
        r is Ok <==> resolved_level(log_level) is Some && parsed_url(BASE_URL@) is Some,
        r matches Ok(plan) ==> Some(plan.client.base_url) == parsed_url(BASE_URL@)
            && plan.client.server.logging == (Logging {
            level: resolved_level(log_level)->Some_0,
            format: selected_format(environment),
        }) && plan.client.server.steps@ == isolated_steps() && plan.database.host@
            == DATABASE_HOST@ && plan.database.database@ == DATABASE_NAME@
            && plan.database.max_connections == MAX_CONNECTIONS && plan.database.statement_level
            == LogLevel::Debug,
        r matches Err(why) ==> why == if resolved_level(log_level) is None {
            SetupError::InvalidLogLevel
        } else {
            SetupError::InvalidBaseUrl
        },
{
    let mut client = match create_client(log_level, environment) {
        Ok(client) => client,
        Err(why) => {
            return Err(why);
        },
    };
    client.server.steps.push(SetupStep::BeginTransaction);
    client.server.steps.push(SetupStep::Install(Stage::Transaction));
    Ok(
        IsolatedPlan {
            client,
            database: DatabaseSettings {
                host: DATABASE_HOST,
                database: DATABASE_NAME,
                max_connections: MAX_CONNECTIONS,
                statement_level: LogLevel::Debug,
            },
        },
    )
}

/// Plans a mock client: a bare server, without chain, health route or
/// logging, that only takes the caller's routes, bound to `base_url`.
pub fn mock_client(base_url: &str) -> (r: Result<ClientPlan, SetupError>)
    ensures
        r is Ok <==> parsed_url(base_url@) is Some,
        r matches Ok(plan) ==> Some(plan.base_url) == parsed_url(base_url@) && plan.server.steps@
            == seq![SetupStep::UserRoutes] && plan.server.logging == (Logging {
            level: LogLevel::Off,
            format: LogFormat::Pretty,
        }),
        r matches Err(why) ==> why == SetupError::InvalidBaseUrl,
{
    let mut steps: Vec<SetupStep> = Vec::new();
    steps.push(SetupStep::UserRoutes);
    assert(steps@ =~= seq![SetupStep::UserRoutes]);
    let server = ServerPlan {
        logging: Logging { level: LogLevel::Off, format: LogFormat::Pretty },
        steps,
    };
    bind_client(server, parse_url(base_url))
}

/// The chain of every server is request-id tagging, logging, error
/// formatting; an isolated server attaches the transaction behind them.
pub proof fn law_chain_order()
    ensures
        chain_of(server_steps()) == seq![Stage::RequestId, Stage::Logging, Stage::ErrorFormatting],
        chain_of(isolated_steps()) == seq![
            Stage::RequestId,
            Stage::Logging,
            Stage::ErrorFormatting,
            Stage::Transaction,
        ],
{
    reveal_with_fuel(chain_of, 8);
    assert(chain_of(server_steps()) =~= seq![
        Stage::RequestId,
        Stage::Logging,
        Stage::ErrorFormatting,
    ]);
    assert(isolated_steps().drop_last().drop_last() =~= server_steps());
    assert(chain_of(isolated_steps()) =~= seq![
        Stage::RequestId,
        Stage::Logging,
        Stage::ErrorFormatting,
        Stage::Transaction,
    ]);
}

} // verus!
