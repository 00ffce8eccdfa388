use astrid_capsule::host_state::types::{EnvOverlay, IpcMessage, MessageOrigin};
use astrid_capsule::names::NameMap;
use astrid_capsule::sys::{
    capability_held, capsule_set_epoch, check_capsule_capability, enumerate_capabilities,
    get_caller, get_config, level_name, log_line, random_bytes, should_emit_to_daemon_log,
    sleep_check, sleep_result, ConfigValue, ErrorCode, KnownCapsule, LogLevel, SecretAnswers,
    RANDOM_BYTES_CAP,
};
use astrid_capsule::uplink::{
    self, send_result, UplinkDescriptor, UplinkProfile, Uplinks,
};

const LIMIT: usize = 32;
const ID: &str = "67e55044-10b1-426f-9247-bb680e5fe0c8";
const ID_VALUE: u128 = 0x67e5504410b1426f9247bb680e5fe0c8;

#[test]
fn error_logs_always_surface_to_daemon_log() {
    assert!(should_emit_to_daemon_log(true, LogLevel::Error));
    assert!(should_emit_to_daemon_log(false, LogLevel::Error));
    assert!(!should_emit_to_daemon_log(true, LogLevel::Warn));
    assert!(!should_emit_to_daemon_log(true, LogLevel::Info));
    assert!(should_emit_to_daemon_log(false, LogLevel::Warn));
    assert!(should_emit_to_daemon_log(false, LogLevel::Info));
}

#[test]
fn log_lines_name_their_level() {
    assert_eq!(level_name(LogLevel::Trace), "TRACE");
    assert_eq!(level_name(LogLevel::Debug), "DEBUG");
    assert_eq!(level_name(LogLevel::Info), "INFO");
    assert_eq!(level_name(LogLevel::Warn), "WARN");
    assert_eq!(level_name(LogLevel::Error), "ERROR");
    assert_eq!(log_line("12:00", LogLevel::Warn, "caps", "hot"), "12:00 WARN [caps] hot");
}

fn secret(own: Option<&str>, host_wide: Option<&str>) -> SecretAnswers {
    SecretAnswers { own: own.map(str::to_owned), host_wide: host_wide.map(str::to_owned) }
}

#[test]
fn configuration_is_read_from_the_right_place() {
    let secrets = vec!["TOKEN".to_owned()];
    let mut values = NameMap::new();
    values.insert("TOKEN".to_owned(), "leaked".to_owned());
    values.insert("MODE".to_owned(), "operator".to_owned());
    let overlay = Some(EnvOverlay { values });
    let mut config = NameMap::new();
    config.insert("TOKEN".to_owned(), ConfigValue::Text("leaked".to_owned()));
    config.insert("MODE".to_owned(), ConfigValue::Text("manifest".to_owned()));
    config.insert("RETRIES".to_owned(), ConfigValue::Json("3".to_owned()));
    let none = secret(None, None);
    let get = |key: &str, answers: &SecretAnswers| {
        get_config(&secrets, &overlay, &config, key, answers)
    };
    assert_eq!(get("TOKEN", &none), None);
    assert_eq!(get("TOKEN", &secret(Some(""), Some("shared"))), None);
    assert_eq!(get("TOKEN", &secret(Some("own"), Some("shared"))).as_deref(), Some("own"));
    assert_eq!(get("TOKEN", &secret(None, Some("shared"))).as_deref(), Some("shared"));
    assert_eq!(get("MODE", &none).as_deref(), Some("operator"));
    assert_eq!(get("RETRIES", &none).as_deref(), Some("3"));
    assert_eq!(get("ABSENT", &none), None);
    assert_eq!(
        get_config(&secrets, &None, &config, "MODE", &none).as_deref(),
        Some("manifest")
    );
}

#[test]
fn callers_are_who_the_message_names() {
    let nobody = get_caller(&None);
    assert_eq!(nobody.principal, None);
    assert_eq!((nobody.source_id.as_str(), nobody.timestamp.as_str()), ("", ""));
    let caller = get_caller(&Some(IpcMessage {
        topic: "t".to_owned(),
        principal: Some("alice".to_owned()),
        well_formed: true,
        origin: MessageOrigin::System,
        source_id: "src".to_owned(),
        timestamp: "12:00".to_owned(),
        call_id: None,
    }));
    assert_eq!(caller.principal.as_deref(), Some("alice"));
    assert_eq!((caller.source_id.as_str(), caller.timestamp.as_str()), ("src", "12:00"));
}

#[test]
fn sleeps_are_bounded() {
    assert_eq!(sleep_check(60_000_000_000), Ok(()));
    assert_eq!(sleep_check(60_000_000_001), Err(ErrorCode::TooLarge));
    assert_eq!(sleep_result(false), Ok(()));
    assert_eq!(sleep_result(true), Err(ErrorCode::Cancelled));
}

#[test]
fn random_bytes_are_as_many_as_asked_for() {
    let a = random_bytes(32).expect("entropy");
    let b = random_bytes(32).expect("entropy");
    assert_eq!(a.len(), 32);
    assert_ne!(a, b);
    assert_eq!(random_bytes(0), Ok(vec![]));
    assert_eq!(random_bytes(RANDOM_BYTES_CAP).map(|bytes| bytes.len() as u64), Ok(RANDOM_BYTES_CAP));
    assert_eq!(random_bytes(RANDOM_BYTES_CAP + 1), Err(ErrorCode::TooLarge));
}

#[test]
fn enumerate_returns_load_time_snapshot() {
    assert!(enumerate_capabilities(&vec![]).is_empty());
    let held = vec!["host_process".to_string(), "net_connect".to_string()];
    assert_eq!(
        enumerate_capabilities(&held),
        vec!["host_process".to_string(), "net_connect".to_string()]
    );
    assert_eq!(capsule_set_epoch(None), 0);
    assert_eq!(capsule_set_epoch(Some(5)), 5);
}

#[test]
fn capabilities_are_those_of_the_named_capsule() {
    let capsule = |uuid: u128, capability: &str| KnownCapsule {
        uuid,
        capabilities: vec![capability.to_owned()],
    };
    let known = vec![capsule(ID_VALUE, "net"), capsule(ID_VALUE, "kv"), capsule(2, "kv")];
    assert!(capability_held(&known, Some(ID_VALUE), "net"));
    assert!(!capability_held(&known, Some(ID_VALUE), "kv"));
    assert!(!capability_held(&known, Some(3), "kv"));
    assert!(!capability_held(&known, None, "kv"));
    let registry = Some(known);
    assert_eq!(check_capsule_capability(&registry, ID, "net"), Ok(true));
    assert_eq!(check_capsule_capability(&registry, ID, "kv"), Ok(false));
    assert_eq!(check_capsule_capability(&registry, "not an id", "net"), Ok(false));
    assert_eq!(
        check_capsule_capability(&None, ID, "net"),
        Err(ErrorCode::RegistryUnavailable)
    );
}

// ---- uplinks ----

fn descriptor(name: &str, platform: &str) -> UplinkDescriptor {
    UplinkDescriptor {
        id: ID_VALUE,
        name: name.to_owned(),
        platform: platform.to_owned(),
        profile: UplinkProfile::Chat,
    }
}

#[test]
fn register_uplink_accumulates() {
    let mut uplinks = Uplinks::new(LIMIT);
    assert!(uplinks.registered.is_empty());
    uplinks.register_uplink(descriptor("test-conn", "discord")).unwrap();
    assert_eq!(uplinks.registered.len(), 1);
    assert_eq!(uplinks.registered[0].name, "test-conn");
}

#[test]
fn register_uplink_rejects_at_limit() {
    let mut uplinks = Uplinks::new(LIMIT);
    for i in 0..LIMIT {
        assert!(uplinks.register_uplink(descriptor(&format!("conn-{i}"), "discord")).is_ok());
    }
    assert_eq!(uplinks.registered.len(), LIMIT);
    assert!(uplinks.register_uplink(descriptor("over-limit", "discord")).is_err());
    assert_eq!(uplinks.registered.len(), LIMIT);
}

#[test]
fn register_uplink_rejects_duplicate_name_and_platform() {
    let mut uplinks = Uplinks::new(LIMIT);
    assert!(uplinks.register_uplink(descriptor("my-conn", "discord")).is_ok());
    let err = uplinks.register_uplink(descriptor("my-conn", "discord")).unwrap_err();
    assert!(err.contains("duplicate"), "expected duplicate error: {err}");
    assert!(uplinks.register_uplink(descriptor("my-conn", "telegram")).is_ok());
    assert_eq!(uplinks.registered.len(), 2);
}

fn register(uplinks: &mut Uplinks, name: &str, platform: &str) -> Result<u128, uplink::ErrorCode> {
    uplinks.uplink_register(true, name, platform, UplinkProfile::Notify, false, &Ok(()), 7)
}

#[test]
fn uplinks_are_registered_under_a_plain_platform() {
    let mut uplinks = Uplinks::new(2);
    assert_eq!(register(&mut uplinks, "a", "  DisCord\n"), Ok(7));
    assert_eq!(uplinks.registered[0].platform, "discord");
    assert_eq!(uplinks.registered[0].name, "a");
    assert_eq!(uplinks.registered[0].profile, UplinkProfile::Notify);
    assert_eq!(
        register(&mut uplinks, "a", "discord"),
        Err(uplink::ErrorCode::InvalidInput)
    );
    assert_eq!(register(&mut uplinks, " \t", "x"), Err(uplink::ErrorCode::InvalidInput));
    assert_eq!(register(&mut uplinks, "b", " "), Err(uplink::ErrorCode::InvalidInput));
    assert_eq!(
        uplinks.uplink_register(false, "b", "x", UplinkProfile::Chat, false, &Ok(()), 8),
        Err(uplink::ErrorCode::CapabilityDenied)
    );
    assert_eq!(
        uplinks.uplink_register(true, "b", "x", UplinkProfile::Chat, true, &Ok(()), 8),
        Err(uplink::ErrorCode::CapabilityDenied)
    );
    assert_eq!(
        uplinks.uplink_register(
            true,
            "b",
            "x",
            UplinkProfile::Chat,
            false,
            &Err("bad id".to_owned()),
            8
        ),
        Err(uplink::ErrorCode::Unknown("uplink source: bad id".to_owned()))
    );
    assert_eq!(register(&mut uplinks, "b", "x"), Ok(7));
    assert_eq!(register(&mut uplinks, "c", "x"), Err(uplink::ErrorCode::Quota));
}

#[test]
fn white_space_is_what_unicode_says() {
    for c in '\0'..=char::MAX {
        assert_eq!(uplink::is_white(c), c.is_whitespace(), "{c:?}");
    }
}

#[test]
fn white_space_counts_only_inside_a_platform() {
    let mut uplinks = Uplinks::new(3);
    assert_eq!(register(&mut uplinks, "a", "\u{3000}\u{a0}My Chat\u{2003}\r\n"), Ok(7));
    assert_eq!(uplinks.registered[0].platform, "my chat");
    assert_eq!(register(&mut uplinks, " a ", "x"), Ok(7));
    assert_eq!(uplinks.registered[1].name, " a ");
    assert_eq!(
        register(&mut uplinks, "\u{2003}\u{85}", "y"),
        Err(uplink::ErrorCode::InvalidInput)
    );
    assert_eq!(register(&mut uplinks, "b", "\u{200b}"), Ok(7));
    assert_eq!(uplinks.registered[2].platform, "\u{200b}");
}

#[test]
fn messages_go_to_the_uplink_they_name() {
    let mut uplinks = Uplinks::new(LIMIT);
    uplinks.register_uplink(descriptor("a", "discord")).unwrap();
    let send = |cap: bool, id: &str, inbox: bool| uplinks.uplink_send(cap, id, inbox, "u1", "hi");
    let sent = match send(true, ID, true) {
        Ok(message) => message,
        Err(code) => panic!("{code:?}"),
    };
    assert_eq!(sent.uplink, ID_VALUE);
    assert_eq!(
        (sent.platform.as_str(), sent.platform_user_id.as_str(), sent.content.as_str()),
        ("discord", "u1", "hi")
    );
    let code = |r: Result<uplink::InboundMessage, uplink::ErrorCode>| r.err().expect("refused");
    assert_eq!(code(send(false, ID, true)), uplink::ErrorCode::CapabilityDenied);
    assert_eq!(code(send(true, ID, false)), uplink::ErrorCode::Quota);
    assert_eq!(code(send(true, "not an id", true)), uplink::ErrorCode::InvalidInput);
    assert_eq!(code(send(true, &"1".repeat(65), true)), uplink::ErrorCode::InvalidInput);
    assert_eq!(
        code(send(true, "00000000-0000-0000-0000-000000000001", true)),
        uplink::ErrorCode::UnknownUplink
    );
    assert_eq!(send_result(true), Ok(true));
    assert_eq!(send_result(false), Ok(false));
}
