//! The broker client's configuration, built through rdkafka.

use vstd::prelude::*;

use rdkafka::config::{ClientConfig, RDKafkaLogLevel};

verus! {

#[verifier::external_type_specification]
#[verifier::external_body]
pub struct ExClientConfig(ClientConfig);

/// The librdkafka log levels, most severe first.
#[derive(Clone, Copy, Debug, PartialEq, Eq, Structural)]
pub enum LogLevel {
    Emerg,
    Alert,
    Critical,
    Error,
    Warning,
    Notice,
    Info,
    Debug,
}

/// The key/value settings that a client configuration holds.
pub uninterp spec fn config_entries(c: ClientConfig) -> Map<Seq<char>, Seq<char>>;

/// The log level that a client configuration asks of librdkafka.
pub uninterp spec fn config_log_level(c: ClientConfig) -> LogLevel;

/// Relies on `ClientConfig::new`: a configuration with no settings.
#[verifier::external_body]
pub(crate) fn config_new() -> (r: ClientConfig)
    ensures
        config_entries(r).dom() =~= Set::empty(),
{
    ClientConfig::new()
}

/// Relies on `ClientConfig::set`: the setting `key` becomes `value`, the
/// others and the log level stay.
#[verifier::external_body]
pub(crate) fn config_set(c: &mut ClientConfig, key: &str, value: &str)
    ensures
        config_entries(*final(c)) == config_entries(*old(c)).insert(key@, value@),
        config_log_level(*final(c)) == config_log_level(*old(c)),
{
    c.set(key, value);
}

/// Relies on `ClientConfig::set_log_level`: the log level becomes `level`,
/// the settings stay.
#[verifier::external_body]
pub(crate) fn config_set_log_level(c: &mut ClientConfig, level: LogLevel)
    ensures
        config_entries(*final(c)) == config_entries(*old(c)),
        config_log_level(*final(c)) == level,
{
    let l = match level {
        LogLevel::Emerg => RDKafkaLogLevel::Emerg,
        LogLevel::Alert => RDKafkaLogLevel::Alert,
        LogLevel::Critical => RDKafkaLogLevel::Critical,
        LogLevel::Error => RDKafkaLogLevel::Error,
        LogLevel::Warning => RDKafkaLogLevel::Warning,
        LogLevel::Notice => RDKafkaLogLevel::Notice,
        LogLevel::Info => RDKafkaLogLevel::Info,
        LogLevel::Debug => RDKafkaLogLevel::Debug,
    };
    c.set_log_level(l);
}

} // verus!
