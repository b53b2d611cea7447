use vstd::prelude::*;

verus! {

/// How much statement logging the caller asked for.
#[derive(Debug, Clone, Copy, PartialEq, Eq, Structural)]
pub enum LogLevel {
    Off,
    Error,
    Warn,
    Info,
    Debug,
    Trace,
}

/// Logging configuration shared between the erased and the concrete
/// connect options.
#[derive(Debug, Clone, Copy, PartialEq, Eq, Structural)]
pub struct LogSettings {
    pub statements_level: LogLevel,
    pub slow_statements_level: LogLevel,
    pub slow_statements_duration_ms: u64,
}

/// The erased connect options: a connection URL and the shared logging
/// configuration.
#[derive(Debug, Clone, PartialEq)]
pub struct ErasedConnectOptions {
    pub database_url: String,
    pub log_settings: LogSettings,
}

/// The concrete connect options this bridge derives. The URL itself is
/// parsed by the concrete driver (an external collaborator); the bridge's
/// part is to hand it over unmodified and to preserve the logging
/// configuration verbatim.
#[derive(Debug, Clone, PartialEq)]
pub struct ConcreteConnectOptions {
    pub url: String,
    pub log_settings: LogSettings,
}

/// Derives the concrete connect options from the erased ones, losslessly
/// for the fields this layer understands: the URL is handed through
/// unmodified and the logging configuration is preserved verbatim.
pub fn derive_connect_options(opts: &ErasedConnectOptions) -> (r: ConcreteConnectOptions)
    ensures
        r.url == opts.database_url,
        r.log_settings == opts.log_settings,
{
    ConcreteConnectOptions { url: opts.database_url.clone(), log_settings: opts.log_settings }
}

} // verus!
