use vstd::prelude::*;

use crate::catalog::Catalog;
use crate::models::opt_view;
use crate::parse::{parse_bool, parse_unsigned, unsigned_at_most};
use crate::text::str_equal;

verus! {

/// The service's configuration.
#[derive(Debug)]
pub struct AppConfig {
    pub server: ServerConfig,
    pub service: ServiceConfig,
    pub security: SecurityConfig,
    pub otel: OtelConfig,
    pub otel_provider: OtelProviderConfig,
    pub tesseract: TesseractConfig,
}

/// Where and how the HTTP server runs.
#[derive(Debug)]
pub struct ServerConfig {
    pub host: String,
    pub port: u16,
    pub file_upload_max_size: usize,
    pub environment: String,
    pub timeout: std::time::Duration,
}

/// Cross-origin settings.
#[derive(Debug)]
pub struct SecurityConfig {
    pub max_access_control_age: std::time::Duration,
}

/// The service's identity and defaults.
#[derive(Debug)]
pub struct ServiceConfig {
    pub name: String,
    /// The language used when a request names none.
    pub default_language: String,
}

/// The telemetry provider.
#[derive(Debug)]
pub struct OtelProviderConfig {
    pub provider: Option<String>,
    pub organization: Option<String>,
    pub stream_name: Option<String>,
    pub auth_token: Option<String>,
}

/// Telemetry export.
#[derive(Debug)]
pub struct OtelConfig {
    pub enabled: bool,
    pub service_name: Option<String>,
    pub traces_endpoint: Option<String>,
    pub logs_endpoint: Option<String>,
    pub metrics_endpoint: Option<String>,
    pub metric_export_interval: Option<std::time::Duration>,
}

/// Where the recognition models are installed.
#[derive(Debug)]
pub struct TesseractConfig {
    pub data_path: String,
}

/// Why the configuration could not be loaded.
#[derive(Debug)]
pub enum ServerError {
    /// A required variable is missing.
    ConfigMissingEnv(&'static str),
    /// A variable has the wrong format.
    ConfigWrongFormat(&'static str),
}

/// Relies on core::time::Duration::from_secs, which never fails.
pub assume_specification[ core::time::Duration::from_secs ](secs: u64) -> core::time::Duration;

/// Relies on core::time::Duration::from_millis, which never fails.
pub assume_specification[ core::time::Duration::from_millis ](millis: u64) -> core::time::Duration;

/// The value of variable `name` in `vars`: the first one listed under that name.
pub open spec fn lookup(vars: Seq<(String, String)>, name: Seq<char>) -> Option<Seq<char>>
    decreases vars.len(),
{
    if vars.len() == 0 {
        None
    } else if vars[0].0@ == name {
        Some(vars[0].1@)
    } else {
        lookup(vars.drop_first(), name)
    }
}

/// A variable's text, or `default` when it is not set.
pub open spec fn text_or(v: Option<Seq<char>>, default: Seq<char>) -> Seq<char> {
    match v {
        Some(t) => t,
        None => default,
    }
}

/// A variable's number no larger than `max`, or `default` when it is not set
/// or is not such a number.
pub open spec fn number_or(v: Option<Seq<char>>, max: u64, default: u64) -> u64 {
    match v {
        Some(t) => match unsigned_at_most(t, max) {
            Some(n) => n,
            None => default,
        },
        None => default,
    }
}

/// A variable's flag, or `false` when it is not set or is not `true`/`false`.
pub open spec fn flag_or_false(v: Option<Seq<char>>) -> bool {
    v == Some("true"@)
}

/// The variable holds something other than an unsigned number.
pub open spec fn malformed_number(v: Option<Seq<char>>) -> bool {
    v matches Some(t) && unsigned_at_most(t, u64::MAX) is None
}

/// `c` is the configuration that the variables `vars` give, each setting
/// falling back to its default.
pub open spec fn config_from(vars: Seq<(String, String)>, c: AppConfig) -> bool {
    &&& c.server.host@ == text_or(lookup(vars, "SERVER_HOST"@), "0.0.0.0"@)
    &&& c.server.port == number_or(lookup(vars, "SERVER_PORT"@), 65535, 8080)
    &&& c.server.file_upload_max_size as u64 == number_or(
        lookup(vars, "SERVER_FILE_UPLOAD_MAX_SIZE"@),
        usize::MAX as u64,
        10485760,
    )
    &&& c.server.environment@ == text_or(lookup(vars, "SERVER_ENVIRONMENT"@), "development"@)
    &&& c.service.name@ == text_or(lookup(vars, "SERVICE_NAME"@), "ocr-service"@)
    &&& c.service.default_language@ == text_or(lookup(vars, "SERVICE_DEFAULT_LANGUAGE"@), "eng"@)
    &&& c.otel.enabled == flag_or_false(lookup(vars, "OTEL_ENABLED"@))
    &&& opt_view(c.otel.service_name) == lookup(vars, "OTEL_SERVICE_NAME"@)
    &&& opt_view(c.otel.traces_endpoint) == lookup(vars, "OTEL_EXPORTER_OTLP_TRACES_ENDPOINT"@)
    &&& opt_view(c.otel.logs_endpoint) == lookup(vars, "OTEL_EXPORTER_OTLP_LOGS_ENDPOINT"@)
    &&& opt_view(c.otel.metrics_endpoint) == lookup(vars, "OTEL_EXPORTER_OTLP_METRICS_ENDPOINT"@)
    &&& (c.otel.metric_export_interval is Some <==> lookup(vars, "OTEL_METRIC_EXPORT_INTERVAL"@) is Some)
    &&& opt_view(c.otel_provider.provider) == lookup(vars, "OTEL_PROVIDER"@)
    &&& opt_view(c.otel_provider.organization) == lookup(vars, "OTEL_PROVIDER_ORGANIZATION"@)
    &&& opt_view(c.otel_provider.stream_name) == lookup(vars, "OTEL_PROVIDER_STREAM_NAME"@)
    &&& opt_view(c.otel_provider.auth_token) == lookup(vars, "OTEL_PROVIDER_AUTH_TOKEN"@)
    &&& c.tesseract.data_path@ == text_or(lookup(vars, "TESSDATA_PATH"@), "tesseract"@)
}

/// The value of variable `name` in `vars`.
pub fn env_var(vars: &Vec<(String, String)>, name: &str) -> (r: Option<String>)
    ensures
        opt_view(r) == lookup(vars@, name@),
{
    let mut i: usize = 0;
    assert(vars@.subrange(0, vars@.len() as int) =~= vars@);
    while i < vars.len()
        invariant
            i <= vars@.len(),
            lookup(vars@, name@) == lookup(vars@.subrange(i as int, vars@.len() as int), name@),
        decreases vars@.len() - i,
    {
        let ghost rest = vars@.subrange(i as int, vars@.len() as int);
        assert(rest.drop_first() =~= vars@.subrange(i + 1, vars@.len() as int));
        assert(rest[0] == vars@[i as int]);
        if str_equal(vars[i].0.as_str(), name) {
            return Some(vars[i].1.clone());
        }
        i = i + 1;
    }
    None
}

/// A variable's text, or `default` when it is not set.
fn text_var(vars: &Vec<(String, String)>, name: &str, default: &str) -> (r: String)
    ensures
        r@ == text_or(lookup(vars@, name@), default@),
{
    match env_var(vars, name) {
        Some(v) => v,
        None => default.to_owned(),
    }
}

/// A variable's number no larger than `max`, or `default`.
fn number_var(vars: &Vec<(String, String)>, name: &str, max: u64, default: u64) -> (r: u64)
    ensures
        r == number_or(lookup(vars@, name@), max, default),
{
    match env_var(vars, name) {
        Some(v) => match parse_unsigned(v.as_str(), max) {
            Some(n) => n,
            None => default,
        },
        None => default,
    }
}

impl AppConfig {
    /// The configuration that the variables `vars` give; a malformed metric
    /// export interval is refused.
    pub fn load_from_vars(vars: &Vec<(String, String)>) -> (r: Result<AppConfig, ServerError>)
        ensures
            match r {
                Ok(c) => !malformed_number(lookup(vars@, "OTEL_METRIC_EXPORT_INTERVAL"@))
                    && config_from(vars@, c),
                Err(e) => malformed_number(lookup(vars@, "OTEL_METRIC_EXPORT_INTERVAL"@))
                    && (e matches ServerError::ConfigWrongFormat(n) && n@
                    == "OTEL_METRIC_EXPORT_INTERVAL"@),
            },
    {
        proof {
            reveal_strlit("true");
            reveal_strlit("false");
        }
        let metric_export_interval = match env_var(vars, "OTEL_METRIC_EXPORT_INTERVAL") {
            Some(v) => match parse_unsigned(v.as_str(), u64::MAX) {
                Some(ms) => Some(std::time::Duration::from_millis(ms)),
                None => {
                    return Err(ServerError::ConfigWrongFormat("OTEL_METRIC_EXPORT_INTERVAL"));
                },
            },
            None => None,
        };
        let enabled = match env_var(vars, "OTEL_ENABLED") {
            Some(v) => match parse_bool(v.as_str()) {
                Some(b) => b,
                None => false,
            },
            None => false,
        };
        let port = number_var(vars, "SERVER_PORT", 65535, 8080) as u16;
        let max_size = number_var(vars, "SERVER_FILE_UPLOAD_MAX_SIZE", usize::MAX as u64, 10485760);
        let timeout = number_var(vars, "SERVER_REQUEST_TIMEOUT", u64::MAX, 15);
        let max_age = number_var(vars, "SECURITY_MAX_ACCESS_CONTROL_AGE", u64::MAX, 600);
        Ok(
            AppConfig {
                server: ServerConfig {
                    host: text_var(vars, "SERVER_HOST", "0.0.0.0"),
                    port,
                    file_upload_max_size: max_size as usize,
                    environment: text_var(vars, "SERVER_ENVIRONMENT", "development"),
                    timeout: std::time::Duration::from_secs(timeout),
                },
                service: ServiceConfig {
                    name: text_var(vars, "SERVICE_NAME", "ocr-service"),
                    default_language: text_var(vars, "SERVICE_DEFAULT_LANGUAGE", "eng"),
                },
                security: SecurityConfig {
                    max_access_control_age: std::time::Duration::from_secs(max_age),
                },
                otel: OtelConfig {
                    enabled,
                    service_name: env_var(vars, "OTEL_SERVICE_NAME"),
                    traces_endpoint: env_var(vars, "OTEL_EXPORTER_OTLP_TRACES_ENDPOINT"),
                    logs_endpoint: env_var(vars, "OTEL_EXPORTER_OTLP_LOGS_ENDPOINT"),
                    metrics_endpoint: env_var(vars, "OTEL_EXPORTER_OTLP_METRICS_ENDPOINT"),
                    metric_export_interval,
                },
                otel_provider: OtelProviderConfig {
                    provider: env_var(vars, "OTEL_PROVIDER"),
                    organization: env_var(vars, "OTEL_PROVIDER_ORGANIZATION"),
                    stream_name: env_var(vars, "OTEL_PROVIDER_STREAM_NAME"),
                    auth_token: env_var(vars, "OTEL_PROVIDER_AUTH_TOKEN"),
                },
                tesseract: TesseractConfig {
                    data_path: text_var(vars, "TESSDATA_PATH", "tesseract"),
                },
            },
        )
    }
}

/// What every request handler shares: the configuration and the catalog of
/// installed models, built once at startup and only read afterwards.
#[derive(Debug)]
pub struct AppState {
    pub app_config: AppConfig,
    pub available_tesseract_languages: Catalog,
}

} // verus!
