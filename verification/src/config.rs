use vstd::prelude::*;

use crate::errors::{
    is_bad_port, is_load_error, is_missing_key, is_missing_section, is_port_error, ConfigDetail,
    Error,
};
use crate::port::{parse_port, port_value, valid_port_string};
use crate::DEFAULT_CONFIG;

verus! {

// Environment variable that overrides the configuration file path.
pub const KEYLIME_CONFIG_ENV: &'static str = "KEYLIME_CONFIG";

/// An environment value counts as set only when it is present and non-empty.
pub open spec fn env_set(v: Option<String>) -> bool {
    match v {
        Some(s) => s@.len() > 0,
        None => false,
    }
}

/// The characters of an environment value; empty when the variable is unset.
pub open spec fn env_str(v: Option<String>) -> Seq<char> {
    match v {
        Some(s) => s@,
        None => Seq::empty(),
    }
}

/// The configuration file a given override value selects: the value itself
/// when set and non-empty, the compiled-in default otherwise.
pub open spec fn resolved_config_path(v: Option<String>) -> Seq<char> {
    if env_set(v) {
        env_str(v)
    } else {
        DEFAULT_CONFIG@
    }
}

/// Resolves the configuration file path from the value of the
/// `KEYLIME_CONFIG` environment variable: that value when set and
/// non-empty, else the compiled-in default. Never fails.
pub fn config_file_get(env_val: Option<String>) -> (r: String)
    ensures
        r@ == resolved_config_path(env_val),
{
    match env_val {
        Some(cfg) => {
            if !cfg.as_str().is_empty() {
                cfg
            } else {
                DEFAULT_CONFIG.to_owned()
            }
        },
        None => DEFAULT_CONFIG.to_owned(),
    }
}

#[verifier::external_type_specification]
#[verifier::external_body]
pub struct ExIni(ini::Ini);

/// The contents of a parsed configuration document: the first section of
/// each name, as a map from the section's name to its key/value pairs
/// (first value of each key).
pub uninterp spec fn ini_sections(conf: ini::Ini) -> Map<Seq<char>, Map<Seq<char>, Seq<char>>>;

/// Relies on ini::Ini::load_from_file: reads and parses the document at
/// `path`. The outcome depends on what is on disk, so nothing is stated
/// beyond the shape of the result.
#[verifier::external_body]
fn load_ini(path: &str) -> (r: Option<ini::Ini>) {
    ini::Ini::load_from_file(path).ok()
}

/// Relies on ini::Ini::section: a section of that name is present in the
/// document exactly when the lookup returns one.
#[verifier::external_body]
fn ini_has_section(conf: &ini::Ini, section: &str) -> (r: bool)
    ensures
        r == ini_sections(*conf).contains_key(section@),
{
    conf.section(Some(section)).is_some()
}

/// Relies on ini::Ini::get_from: returns the value stored under `key` in
/// the first section named `section`, when both exist.
#[verifier::external_body]
fn ini_get_from(conf: &ini::Ini, section: &str, key: &str) -> (r: Option<String>)
    ensures
        match r {
            Some(v) => ini_sections(*conf).contains_key(section@)
                && ini_sections(*conf)[section@].contains_key(key@)
                && v@ == ini_sections(*conf)[section@][key@],
            None => !(ini_sections(*conf).contains_key(section@)
                && ini_sections(*conf)[section@].contains_key(key@)),
        },
{
    conf.get_from(Some(section), key).map(|v| v.to_string())
}

/// Looks `key` up in `section` of an already-parsed configuration
/// document. `conf_name` is the file the document came from; it is quoted
/// in errors so a failed lookup can be diagnosed without re-running it.
pub fn config_get_from(conf: &ini::Ini, conf_name: String, section: &str, key: &str) -> (r:
    Result<String, Error>)
    ensures
        match r {
            Ok(v) => ini_sections(*conf).contains_key(section@)
                && ini_sections(*conf)[section@].contains_key(key@)
                && v@ == ini_sections(*conf)[section@][key@],
            Err(e) => if !ini_sections(*conf).contains_key(section@) {
                is_missing_section(e, section@, conf_name@)
            } else {
                !ini_sections(*conf)[section@].contains_key(key@)
                    && is_missing_key(e, section@, key@, conf_name@)
            },
        },
{
    if !ini_has_section(conf, section) {
        Err(Error::Configuration(ConfigDetail::MissingSection {
            section: section.to_owned(),
            file: conf_name,
        }))
    } else {
        match ini_get_from(conf, section, key) {
            Some(value) => Ok(value),
            None => Err(Error::Configuration(ConfigDetail::MissingKey {
                section: section.to_owned(),
                key: key.to_owned(),
                file: conf_name,
            })),
        }
    }
}

/// Any error that comes out of a file lookup is a configuration error and
/// quotes the file that was consulted and the section and key it was asked
/// for; a lookup never fails for lack of privilege.
pub open spec fn lookup_error_named(
    r: Result<String, Error>,
    path: Seq<char>,
    section: Seq<char>,
    key: Seq<char>,
) -> bool {
    match r {
        Ok(_) => true,
        Err(e) => is_load_error(e, path) || is_missing_section(e, section, path)
            || is_missing_key(e, section, key, path),
    }
}

/// Loads the configuration file selected by `conf_path_env` (the value of
/// the `KEYLIME_CONFIG` environment variable) and returns the value of
/// `key` within `section`. What comes back for a present pair depends on
/// what is on disk; every failure is a configuration error naming the
/// file, section or key at fault.
pub fn config_get(conf_path_env: Option<String>, section: &str, key: &str) -> (r: Result<
    String,
    Error,
>)
    ensures
        lookup_error_named(r, resolved_config_path(conf_path_env), section@, key@),
{
    let conf_name = config_file_get(conf_path_env);
    match load_ini(conf_name.as_str()) {
        None => Err(Error::Configuration(ConfigDetail::Load { file: conf_name })),
        Some(conf) => config_get_from(&conf, conf_name, section, key),
    }
}

/// Resolves a setting with the fixed precedence: an environment value that
/// is set and non-empty wins unconditionally and the file is never
/// consulted; otherwise the lookup falls through to the file.
pub fn config_get_env(
    section: &str,
    key: &str,
    env_val: Option<String>,
    conf_path_env: Option<String>,
) -> (r: Result<String, Error>)
    ensures
        env_set(env_val) ==> (r matches Ok(v) && v@ == env_str(env_val)),
        lookup_error_named(r, resolved_config_path(conf_path_env), section@, key@),
{
    match env_val {
        Some(v) => {
            if !v.as_str().is_empty() {
                Ok(v)
            } else {
                config_get(conf_path_env, section, key)
            }
        },
        None => config_get(conf_path_env, section, key),
    }
}

// Environment variables that override the individual settings.
pub const REVOCATION_IP_ENV: &'static str = "REVOCATION_IP";

pub const REVOCATION_PORT_ENV: &'static str = "REVOCATION_PORT";

pub const CLOUDAGENT_IP_ENV: &'static str = "CLOUDAGENT_IP";

pub const CLOUDAGENT_PORT_ENV: &'static str = "CLOUDAGENT_PORT";

pub const REGISTRAR_IP_ENV: &'static str = "REGISTRAR_IP";

pub const REGISTRAR_PORT_ENV: &'static str = "REGISTRAR_PORT";

pub const CLOUDAGENT_CONTACT_IP_ENV: &'static str = "KEYLIME_AGENT_CONTACT_IP";

pub const CLOUDAGENT_CONTACT_PORT_ENV: &'static str = "KEYLIME_AGENT_CONTACT_PORT";

/// Returns the revocation notifier IP: the `REVOCATION_IP` environment
/// value when set and non-empty, else the file value.
pub fn revocation_ip_get(env_val: Option<String>, conf_path_env: Option<String>) -> (r: Result<
    String,
    Error,
>)
    ensures
        env_set(env_val) ==> (r matches Ok(v) && v@ == env_str(env_val)),
        lookup_error_named(
            r,
            resolved_config_path(conf_path_env),
            "general"@,
            "receive_revocation_ip"@,
        ),
{
    config_get_env("general", "receive_revocation_ip", env_val, conf_path_env)
}

/// Returns the revocation notifier port: the `REVOCATION_PORT` environment
/// value when set and non-empty, else the file value.
pub fn revocation_port_get(env_val: Option<String>, conf_path_env: Option<String>) -> (r: Result<
    String,
    Error,
>)
    ensures
        env_set(env_val) ==> (r matches Ok(v) && v@ == env_str(env_val)),
        lookup_error_named(
            r,
            resolved_config_path(conf_path_env),
            "general"@,
            "receive_revocation_port"@,
        ),
{
    config_get_env("general", "receive_revocation_port", env_val, conf_path_env)
}

/// Returns the cloud agent IP: the `CLOUDAGENT_IP` environment value when
/// set and non-empty, else the file value.
pub fn cloudagent_ip_get(env_val: Option<String>, conf_path_env: Option<String>) -> (r: Result<
    String,
    Error,
>)
    ensures
        env_set(env_val) ==> (r matches Ok(v) && v@ == env_str(env_val)),
        lookup_error_named(
            r,
            resolved_config_path(conf_path_env),
            "cloud_agent"@,
            "cloudagent_ip"@,
        ),
{
    config_get_env("cloud_agent", "cloudagent_ip", env_val, conf_path_env)
}

/// Returns the cloud agent port: the `CLOUDAGENT_PORT` environment value
/// when set and non-empty, else the file value.
pub fn cloudagent_port_get(env_val: Option<String>, conf_path_env: Option<String>) -> (r: Result<
    String,
    Error,
>)
    ensures
        env_set(env_val) ==> (r matches Ok(v) && v@ == env_str(env_val)),
        lookup_error_named(
            r,
            resolved_config_path(conf_path_env),
            "cloud_agent"@,
            "cloudagent_port"@,
        ),
{
    config_get_env("cloud_agent", "cloudagent_port", env_val, conf_path_env)
}

/// Returns the registrar IP: the `REGISTRAR_IP` environment value when set
/// and non-empty, else the file value.
pub fn registrar_ip_get(env_val: Option<String>, conf_path_env: Option<String>) -> (r: Result<
    String,
    Error,
>)
    ensures
        env_set(env_val) ==> (r matches Ok(v) && v@ == env_str(env_val)),
        lookup_error_named(
            r,
            resolved_config_path(conf_path_env),
            "cloud_agent"@,
            "registrar_ip"@,
        ),
{
    config_get_env("cloud_agent", "registrar_ip", env_val, conf_path_env)
}

/// Returns the registrar port: the `REGISTRAR_PORT` environment value when
/// set and non-empty, else the file value.
pub fn registrar_port_get(env_val: Option<String>, conf_path_env: Option<String>) -> (r: Result<
    String,
    Error,
>)
    ensures
        env_set(env_val) ==> (r matches Ok(v) && v@ == env_str(env_val)),
        lookup_error_named(
            r,
            resolved_config_path(conf_path_env),
            "cloud_agent"@,
            "registrar_port"@,
        ),
{
    config_get_env("cloud_agent", "registrar_port", env_val, conf_path_env)
}

/// The "suppress-not-found" policy the optional contact settings use: a
/// resolved value passes through, and every failure, whatever its cause,
/// collapses into "no value". The caller deliberately cannot tell a
/// missing file from a missing key.
pub fn suppress_not_found(r: Result<String, Error>) -> (o: Option<String>)
    ensures
        match r {
            Ok(v) => o == Some(v),
            Err(_) => o is None,
        },
{
    match r {
        Ok(v) => Some(v),
        Err(_) => None,
    }
}

/// Returns the agent's contact IP when the setting resolves; absence of
/// the setting, for any reason, is the legitimate unset state, not an
/// error.
pub fn cloudagent_contact_ip_get(env_val: Option<String>, conf_path_env: Option<String>) -> (r:
    Option<String>)
    ensures
        env_set(env_val) ==> (r matches Some(v) && v@ == env_str(env_val)),
{
    suppress_not_found(config_get_env("cloud_agent", "agent_contact_ip", env_val, conf_path_env))
}

/// Turns a resolved contact-port setting into a port number. A value that
/// resolved must be numeric: a bad number is a real error. A setting that
/// did not resolve at all is the legitimate unset state, and the two
/// causes are never conflated.
pub fn contact_port_from_resolved(r: Result<String, Error>) -> (p: Result<Option<u32>, Error>)
    ensures
        match r {
            Ok(s) => match p {
                Ok(op) => (op matches Some(n) && valid_port_string(s@) && n as int == port_value(
                    s@,
                )),
                Err(e) => !valid_port_string(s@) && is_bad_port(e, s@),
            },
            Err(_) => p == Ok::<Option<u32>, Error>(None),
        },
{
    match r {
        Ok(port_str) => match parse_port(port_str.as_str()) {
            Ok(port) => Ok(Some(port)),
            Err(e) => Err(e),
        },
        Err(_) => Ok(None),
    }
}

/// Returns the agent's contact port when the setting resolves. A missing
/// setting is the unset state (`None`); a present but non-numeric value is
/// a configuration error, and a bad port number is the only error this
/// getter ever returns.
pub fn cloudagent_contact_port_get(env_val: Option<String>, conf_path_env: Option<String>) -> (r:
    Result<Option<u32>, Error>)
    ensures
        env_set(env_val) ==> match r {
            Ok(op) => (op matches Some(n) && valid_port_string(env_str(env_val)) && n as int
                == port_value(env_str(env_val))),
            Err(e) => !valid_port_string(env_str(env_val)) && is_bad_port(e, env_str(env_val)),
        },
        match r {
            Err(e) => is_port_error(e),
            Ok(_) => true,
        },
{
    contact_port_from_resolved(
        config_get_env("cloud_agent", "agent_contact_port", env_val, conf_path_env),
    )
}

} // verus!
