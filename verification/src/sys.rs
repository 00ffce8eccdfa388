//! What a capsule learns of itself and of its host.

use vstd::prelude::*;

use crate::entropy::{draw, may_draw};
use crate::host_state::types::{EnvOverlay, IpcMessage};
use crate::names::NameMap;
use crate::text::{concat2, concat3, contains_string, copy_opt, copy_strings, str_eq, views};
use crate::uuids::{parse_uuid, uuid_value};

verus! {

/// How many random bytes one request may ask for.
pub const RANDOM_BYTES_CAP: u64 = 4096;

/// How long one sleep may last, in nanoseconds.
pub const SLEEP_NS_CAP: u64 = 60000000000;

/// Why an operation was refused or failed.
#[derive(Debug, PartialEq, Eq)]
pub enum ErrorCode {
    TooLarge,
    Cancelled,
    RegistryUnavailable,
    Unknown(String),
}

/// How much a line of the log matters.
#[derive(Debug, Clone, Copy, PartialEq, Eq, Structural)]
pub enum LogLevel {
    Trace,
    Debug,
    Info,
    Warn,
    Error,
}

/// A value of the configuration.
pub enum ConfigValue {
    Text(String),
    /// Anything but a text, as JSON.
    Json(String),
}

/// What the store of secrets holds for a key.
pub struct SecretAnswers {
    /// For the principal that the capsule acts for.
    pub own: Option<String>,
    /// For everybody on this host.
    pub host_wide: Option<String>,
}

/// Who called the capsule.
pub struct CallerContext {
    pub principal: Option<String>,
    pub source_id: String,
    pub timestamp: String,
}

/// Another capsule and what it may do.
pub struct KnownCapsule {
    pub uuid: u128,
    pub capabilities: Vec<String>,
}

/// The secret that counts: that of the principal, or else that of the host, or else nothing.
pub open spec fn secret_text(answers: SecretAnswers) -> Seq<char> {
    match answers.own {
        Some(value) => value@,
        None => match answers.host_wide {
            Some(value) => value@,
            None => Seq::empty(),
        },
    }
}

/// The secret that counts.
pub fn resolve_secret(answers: &SecretAnswers) -> (value: String)
    ensures
        value@ == secret_text(*answers),
{
    match &answers.own {
        Some(value) => value.clone(),
        None => match &answers.host_wide {
            Some(value) => value.clone(),
            None => {
                let none = String::new();
                assert(none@ =~= Seq::<char>::empty());
                none
            },
        },
    }
}

/// What a capsule reads under a key: a secret only from the store of secrets, and never an empty
/// one; anything else as the operator has set it for the caller, or else as the manifest has it.
pub open spec fn config_text(
    secret_env: Seq<Seq<char>>,
    overlay: Option<EnvOverlay>,
    config: Map<Seq<char>, ConfigValue>,
    key: Seq<char>,
    secret: SecretAnswers,
) -> Option<Seq<char>> {
    if secret_env.contains(key) {
        if secret_text(secret).len() == 0 {
            None
        } else {
            Some(secret_text(secret))
        }
    } else if overlay is Some && overlay->Some_0.values@.contains_key(key) {
        Some(overlay->Some_0.values@[key]@)
    } else if config.contains_key(key) {
        Some(
            match config[key] {
                ConfigValue::Text(text) => text@,
                ConfigValue::Json(text) => text@,
            },
        )
    } else {
        None
    }
}

/// What a capsule reads under a key.
pub fn get_config(
    secret_env: &Vec<String>,
    overlay: &Option<EnvOverlay>,
    config: &NameMap<ConfigValue>,
    key: &str,
    secret: &SecretAnswers,
) -> (value: Option<String>)
    ensures
        match value {
            Some(text) => config_text(views(secret_env@), *overlay, config@, key@, *secret) == Some(
                text@,
            ),
            None => config_text(views(secret_env@), *overlay, config@, key@, *secret) is None,
        },
{
    if contains_string(secret_env, key) {
        let value = resolve_secret(secret);
        proof {
            reveal_strlit("");
            if value@.len() == 0 {
                assert(value@ =~= ""@);
            }
        }
        if str_eq(value.as_str(), "") {
            return None;
        }
        return Some(value);
    }
    match overlay {
        Some(set) => match set.values.get(key) {
            Some(value) => {
                return Some(value.clone());
            },
            None => {},
        },
        None => {},
    }
    match config.get(key) {
        None => None,
        Some(ConfigValue::Text(text)) => Some(text.clone()),
        Some(ConfigValue::Json(text)) => Some(text.clone()),
    }
}

/// Who called the capsule: nobody where there is no message.
pub fn get_caller(message: &Option<IpcMessage>) -> (caller: CallerContext)
    ensures
        match *message {
            Some(m) => {
                &&& caller.principal == m.principal
                &&& caller.source_id@ == m.source_id@
                &&& caller.timestamp@ == m.timestamp@
            },
            None => {
                &&& caller.principal is None
                &&& caller.source_id@.len() == 0
                &&& caller.timestamp@.len() == 0
            },
        },
{
    match message {
        Some(m) => CallerContext {
            principal: copy_opt(&m.principal),
            source_id: m.source_id.clone(),
            timestamp: m.timestamp.clone(),
        },
        None => CallerContext {
            principal: None,
            source_id: String::new(),
            timestamp: String::new(),
        },
    }
}

/// The name of a level.
pub open spec fn level_text(level: LogLevel) -> Seq<char> {
    match level {
        LogLevel::Trace => "TRACE"@,
        LogLevel::Debug => "DEBUG"@,
        LogLevel::Info => "INFO"@,
        LogLevel::Warn => "WARN"@,
        LogLevel::Error => "ERROR"@,
    }
}

/// The name of a level.
pub fn level_name(level: LogLevel) -> (name: &'static str)
    ensures
        name@ == level_text(level),
{
    match level {
        LogLevel::Trace => "TRACE",
        LogLevel::Debug => "DEBUG",
        LogLevel::Info => "INFO",
        LogLevel::Warn => "WARN",
        LogLevel::Error => "ERROR",
    }
}

/// A line of the log of a capsule.
pub fn log_line(timestamp: &str, level: LogLevel, capsule_id: &str, message: &str) -> (line: String)
    ensures
        line@ == timestamp@ + " "@ + level_text(level) + " ["@ + capsule_id@ + "] "@ + message@,
{
    let head = concat3(timestamp, " ", level_name(level));
    let named = concat3(head.as_str(), " [", capsule_id);
    concat3(named.as_str(), "] ", message)
}

/// Whether a line also goes to the log of the host: always if it is an error, else only if it
/// could not be written to the log of the capsule.
pub fn should_emit_to_daemon_log(wrote_to_file: bool, level: LogLevel) -> (r: bool)
    ensures
        r == (!wrote_to_file || level == LogLevel::Error),
{
    !wrote_to_file || match level {
        LogLevel::Error => true,
        _ => false,
    }
}

/// Whether a sleep may begin.
pub fn sleep_check(duration_ns: u64) -> (r: Result<(), ErrorCode>)
    ensures
        r == (if duration_ns > SLEEP_NS_CAP {
            Err::<(), ErrorCode>(ErrorCode::TooLarge)
        } else {
            Ok::<(), ErrorCode>(())
        }),
{
    if duration_ns > SLEEP_NS_CAP {
        Err(ErrorCode::TooLarge)
    } else {
        Ok(())
    }
}

/// How a sleep ended.
pub fn sleep_result(cancelled: bool) -> (r: Result<(), ErrorCode>)
    ensures
        r == (if cancelled {
            Err::<(), ErrorCode>(ErrorCode::Cancelled)
        } else {
            Ok::<(), ErrorCode>(())
        }),
{
    if cancelled {
        Err(ErrorCode::Cancelled)
    } else {
        Ok(())
    }
}

/// Random bytes from the operating system, handed on as they come. There are none only where too
/// many are asked for, or where the operating system has none, and then with its reason.
pub fn random_bytes(length: u64) -> (r: Result<Vec<u8>, ErrorCode>)
    ensures
        length > RANDOM_BYTES_CAP ==> r == Err::<Vec<u8>, ErrorCode>(ErrorCode::TooLarge),
        length <= RANDOM_BYTES_CAP ==> exists|drawn: Result<Vec<u8>, String>| #[trigger]
            may_draw(length as usize, drawn) && match drawn {
                Ok(bytes) => bytes@.len() == length && r == Ok::<Vec<u8>, ErrorCode>(bytes),
                Err(why) => {
                    &&& r is Err
                    &&& r->Err_0 is Unknown
                    &&& r->Err_0->Unknown_0@ == "entropy source unavailable: "@ + why@
                },
            },
{
    if length > RANDOM_BYTES_CAP {
        return Err(ErrorCode::TooLarge);
    }
    let drawn = draw(length as usize);
    assert(may_draw(length as usize, drawn));
    match drawn {
        Ok(bytes) => Ok(bytes),
        Err(why) => Err(
            ErrorCode::Unknown(concat2("entropy source unavailable: ", why.as_str())),
        ),
    }
}

/// A capsule of this identity is known, and the first such may do this.
pub open spec fn holds(capsules: Seq<KnownCapsule>, uuid: u128, capability: Seq<char>) -> bool {
    exists|i: int|
        0 <= i < capsules.len() && (#[trigger] capsules[i]).uuid == uuid && (forall|k: int|
            0 <= k < i ==> (#[trigger] capsules[k]).uuid != uuid) && views(
            capsules[i].capabilities@,
        ).contains(capability)
}

/// Whether the capsule of an identity may do something. What is not known may nothing.
pub fn capability_held(capsules: &Vec<KnownCapsule>, uuid: Option<u128>, capability: &str) -> (r:
    bool)
    ensures
        r == (uuid is Some && holds(capsules@, uuid->Some_0, capability@)),
{
    let wanted: u128 = match uuid {
        None => {
            return false;
        },
        Some(value) => value,
    };
    let mut i: usize = 0;
    while i < capsules.len()
        invariant
            i <= capsules@.len(),
            uuid == Some(wanted),
            forall|k: int| 0 <= k < i ==> (#[trigger] capsules@[k]).uuid != wanted,
        decreases capsules.len() - i,
    {
        if capsules[i].uuid == wanted {
            let held = contains_string(&capsules[i].capabilities, capability);
            proof {
                if holds(capsules@, wanted, capability@) {
                    let j = choose|j: int|
                        0 <= j < capsules@.len() && (#[trigger] capsules@[j]).uuid == wanted && (
                        forall|k: int| 0 <= k < j ==> (#[trigger] capsules@[k]).uuid != wanted)
                            && views(capsules@[j].capabilities@).contains(capability@);
                    assert(j == i);
                }
                assert(capsules@[i as int].uuid == wanted);
            }
            return held;
        }
        i += 1;
    }
    false
}

/// Whether another capsule may do something. An identity that cannot be read is nobody's.
pub fn check_capsule_capability(
    registry: &Option<Vec<KnownCapsule>>,
    source_uuid: &str,
    capability: &str,
) -> (r: Result<bool, ErrorCode>)
    ensures
        match *registry {
            None => r == Err::<bool, ErrorCode>(ErrorCode::RegistryUnavailable),
            Some(capsules) => r == Ok::<bool, ErrorCode>(
                uuid_value(source_uuid@) is Some && holds(
                    capsules@,
                    uuid_value(source_uuid@)->Some_0,
                    capability@,
                ),
            ),
        },
{
    match registry {
        None => Err(ErrorCode::RegistryUnavailable),
        Some(capsules) => Ok(capability_held(capsules, parse_uuid(source_uuid), capability)),
    }
}

/// What a capsule may do, as it was when it was loaded.
pub fn enumerate_capabilities(held: &Vec<String>) -> (names: Vec<String>)
    ensures
        names@ == held@,
{
    copy_strings(held)
}

/// Which set of capsules is loaded. Without a registry it is zero, which no set is.
pub fn capsule_set_epoch(registry_epoch: Option<u64>) -> (epoch: u64)
    ensures
        epoch == (match registry_epoch {
            Some(n) => n,
            None => 0,
        }),
{
    match registry_epoch {
        Some(n) => n,
        None => 0,
    }
}

/// What an operator sets for a caller goes before the manifest, and no setting of either ever
/// shows in place of a secret.
pub proof fn law_secrets_stay_apart(
    secret_env: Seq<Seq<char>>,
    overlay: Option<EnvOverlay>,
    other_overlay: Option<EnvOverlay>,
    config: Map<Seq<char>, ConfigValue>,
    other_config: Map<Seq<char>, ConfigValue>,
    key: Seq<char>,
    secret: SecretAnswers,
)
    requires
        secret_env.contains(key),
    ensures
        config_text(secret_env, overlay, config, key, secret) == config_text(
            secret_env,
            other_overlay,
            other_config,
            key,
            secret,
        ),
{
}

} // verus!
