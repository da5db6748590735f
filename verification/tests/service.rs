use spell::auth::keys::RoleSet;
use spell::auth::roles::{
    is_by_creator, is_by_host, is_by_spell, is_by_worker, is_spell, is_spell_particle,
    parse_spell_id, CallContext, Role,
};
use spell::auth::{check_kv_write, guard_kv_write};
use spell::error::{format_error, role_text, SpellError};
use spell::location::{get_location, get_relay, set_relay_peer_id, Relay};
use spell::schema::create;
use spell::script::{
    cid_of_script, get_script, get_script_source_from_file, script_cid, set_script,
    set_script_source_to_file,
};
use spell::text::{chars_of, clone_strings, str_eq};
use spell::trigger_config::{
    get_trigger_config, set_trigger_config, u32_from_column, BlockChainConfig, ClockConfig,
    ConnectionPoolConfig, TriggerConfig, TriggerConfigValue,
};
use spell::value::{
    BoolValue, GetLogsResult, GetMailboxResult, LocationValue, PopMailboxResult, SpellValueT,
    StringListValue, StringValue, U32Value, UnitResult, UnitValue,
};

fn creator() -> CallContext {
    CallContext {
        caller_peer_id: "folex".to_string(),
        particle_id: "some_particle".to_string(),
        service_id: "service".to_string(),
        service_creator_peer_id: "folex".to_string(),
        worker_id: "worker".to_string(),
        host_id: "host".to_string(),
    }
}

fn stranger() -> CallContext {
    CallContext { caller_peer_id: "definitely not folex".to_string(), ..creator() }
}

#[test]
fn set_location() {
    let mut store = create();
    let set = set_relay_peer_id(&mut store.relay, &creator(), "relay".to_string());
    assert!(set.success, "first set failed: {}", set.error);

    let set = set_relay_peer_id(&mut store.relay, &creator(), "relay".to_string());
    assert_eq!(set.success, false, "second set succeeded: {}", set.error);
    assert_eq!(set.error, "RelayAlreadySet");

    let location = get_location(&store.relay, &creator());
    assert!(location.success, "get_location failed: {}", location.error);
    assert_eq!(location.relay, "relay");
    assert_eq!(location.host, "host");
    assert_eq!(location.service_id, "service");
}

#[test]
fn test_relay_is_written_once() {
    let mut relay = Relay::new();
    assert!(!relay.is_set());
    let set = set_relay_peer_id(&mut relay, &stranger(), "evil".to_string());
    assert!(!set.success);
    assert_eq!(set.error, "SetRelayForbidden");
    assert!(!relay.is_set());
    assert_eq!(get_relay(&relay), Err(SpellError::NoRelay));
    let location = get_location(&relay, &creator());
    assert!(!location.success);
    assert_eq!(location.error, "Location not available: relay was not set");

    assert!(set_relay_peer_id(&mut relay, &creator(), "first".to_string()).success);
    for ctx in [creator(), stranger()] {
        let set = set_relay_peer_id(&mut relay, &ctx, "second".to_string());
        assert!(!set.success);
        assert_eq!(set.error, "RelayAlreadySet");
        assert_eq!(get_relay(&relay), Ok("first".to_string()));
    }
    assert_eq!(relay.set("third".to_string()), Err(SpellError::RelayAlreadySet));
}

fn sample_config() -> TriggerConfig {
    TriggerConfig {
        clock: ClockConfig { start_sec: 1, end_sec: 2, period_sec: 3 },
        connections: ConnectionPoolConfig { connect: true, disconnect: false },
        blockchain: BlockChainConfig { start_block: 4, end_block: 5 },
    }
}

#[test]
fn test_trigger_config() {
    let mut store = create();
    let get = get_trigger_config(&store.trigger_config);
    assert!(!get.success);
    assert_eq!(get.config, TriggerConfig::default());
    assert_eq!(
        get.error,
        "Trigger Config is not set. Use set_trigger_config to set it."
    );

    let set = set_trigger_config(&mut store.trigger_config, &stranger(), sample_config());
    assert!(!set.success);
    assert_eq!(set.error, "SetTriggerConfigForbidden");
    assert!(store.trigger_config.is_none());

    let set = set_trigger_config(&mut store.trigger_config, &creator(), sample_config());
    assert!(set.success, "{}", set.error);
    let get = get_trigger_config(&store.trigger_config);
    assert!(get.is_success());
    assert_eq!(get.config, sample_config());
    assert_eq!(get.take_error(), "");

    let set = set_trigger_config(&mut store.trigger_config, &creator(), TriggerConfig::default());
    assert!(set.success);
    assert_eq!(get_trigger_config(&store.trigger_config).config, TriggerConfig::default());
}

#[test]
fn test_trigger_config_from_columns() {
    assert_eq!(TriggerConfig::from_columns(1, 2, 3, 1, 0, 4, 5), sample_config());
    assert_eq!(
        TriggerConfig::from_columns(0, 0, 0, 7, -1, 0, 0).connections,
        ConnectionPoolConfig { connect: true, disconnect: true }
    );
    assert_eq!(u32_from_column(0), 0);
    assert_eq!(u32_from_column(4_294_967_295), u32::MAX);
    assert_eq!(u32_from_column(4_294_967_296 + 5), 5);
    let value = TriggerConfigValue::default();
    assert!(!value.success);
    assert_eq!(value.config, TriggerConfig::default());
}

#[test]
fn test_set_script_source_to_file() {
    let mut store = create();
    assert!(set_script(&mut store.script, &creator(), "(null)".to_string()).success);
    let script = get_script(&store.script);
    assert!(script.success);
    assert_eq!(script.value, "(null)");
}

#[test]
fn test_set_script_source_to_file_twice() {
    let mut store = create();
    assert!(set_script(&mut store.script, &creator(), "(null)".to_string()).success);
    assert!(set_script(&mut store.script, &creator(), "(seq)".to_string()).success);
    assert_eq!(get_script(&store.script).value, "(seq)");

    let mut once = None;
    assert!(set_script_source_to_file(&mut once, &creator(), "(null)".to_string()).success);
    let again = set_script_source_to_file(&mut once, &creator(), "(seq)".to_string());
    assert!(!again.success);
    assert_eq!(again.error, "Script can be set only once, and it was already set");
    let script = get_script_source_from_file(&once);
    assert!(script.success);
    assert_eq!(script.source_code, "(null)");
}

#[test]
fn test_set_script_by_third_party() {
    let mut store = create();
    let set = set_script(&mut store.script, &stranger(), "(null)".to_string());
    assert!(!set.success, "set script succeeded while shouldn't");
    assert_eq!(set.error, "Only owner of the service can set the script");
    let set = set_script_source_to_file(&mut store.script, &stranger(), "(null)".to_string());
    assert!(!set.success);
    assert_eq!(set.error, "Only owner of the service can set the script");
    let script = get_script(&store.script);
    assert!(!script.is_success());
    assert_eq!(script.value, "");
    assert_eq!(script.error, "Script was not set");
    assert!(!get_script_source_from_file(&store.script).success);
}

#[test]
fn test_cid() {
    let mut store = create();
    let cid = script_cid(&store.script);
    assert!(!cid.success);
    assert_eq!(cid.value, "");
    assert_eq!(cid.error, "error loading script: Script was not set");

    assert!(set_script(&mut store.script, &creator(), "(null)".to_string()).success);
    let cid = script_cid(&store.script);
    assert!(cid.success);
    assert_eq!(cid.error, "");
    assert_eq!(
        cid.value,
        "bafkreibiotlyad7mvyqiit3ie2ljecziknctzuzmi7qtmktxmib5aiu3cq"
    );
    assert_eq!(
        cid_of_script("foo"),
        "bafkreibme22gw2h7y2h7tg2fhqotaqjucnbc24deqo72b6mkl2egezxhvy"
    );
}

#[test]
fn test_parse_spell_id() {
    assert_eq!(parse_spell_id("spell_abc_0"), Some("abc"));
    assert_eq!(parse_spell_id("spell_abc"), Some("abc"));
    assert_eq!(parse_spell_id("spell_"), Some(""));
    assert_eq!(parse_spell_id("spell__7"), Some(""));
    assert_eq!(parse_spell_id("spell_abc_"), Some("abc"));
    assert_eq!(parse_spell_id("spell_a_b_0"), Some("a"));
    assert_eq!(parse_spell_id("spell_сервис_0"), Some("сервис"));
    assert_eq!(parse_spell_id("spell"), None);
    assert_eq!(parse_spell_id("spellbound_abc_0"), None);
    assert_eq!(parse_spell_id("spellx_spell-id_0"), None);
    assert_eq!(parse_spell_id("spells"), None);
    assert_eq!(parse_spell_id("spel_abc_0"), None);
    assert_eq!(parse_spell_id("Spell_abc_0"), None);
    assert_eq!(parse_spell_id("a_spell_abc_0"), None);
    assert_eq!(parse_spell_id(""), None);
}

#[test]
fn test_identity_checks() {
    let ctx = CallContext {
        caller_peer_id: "worker".to_string(),
        particle_id: "spell_service_3".to_string(),
        ..creator()
    };
    assert!(is_spell_particle(&ctx));
    assert!(is_by_worker(&ctx));
    assert!(is_spell(&ctx));
    assert!(!is_by_host(&ctx));
    assert!(!is_by_creator(&ctx));
    assert!(!is_by_spell(&ctx), "the spell's own calls come from the creator");

    let ctx = CallContext { particle_id: "spell_service_3".to_string(), ..creator() };
    assert!(is_by_creator(&ctx));
    assert!(is_by_spell(&ctx));
    assert!(!is_spell(&ctx));

    // the first word must be `spell` and nothing more
    let ctx = CallContext {
        caller_peer_id: "worker".to_string(),
        particle_id: "spellx_service_3".to_string(),
        ..creator()
    };
    assert!(!is_spell_particle(&ctx));
    assert!(!is_spell(&ctx));
    let ctx = CallContext { particle_id: "spellx_service_3".to_string(), ..creator() };
    assert!(!is_by_spell(&ctx));

    // a service id with a `_` is never found in a particle id
    let ctx = CallContext {
        caller_peer_id: "worker".to_string(),
        particle_id: "spell_a_b_0".to_string(),
        service_id: "a_b".to_string(),
        ..creator()
    };
    assert!(!is_spell_particle(&ctx));
}

#[test]
fn test_guard_errors() {
    let host = CallContext { caller_peer_id: "host".to_string(), ..creator() };
    assert_eq!(guard_kv_write("h_x", &host), Ok(()));
    assert_eq!(
        guard_kv_write("w_x", &host),
        Err(SpellError::WriteForbiddenForRole("w_x".to_string(), Role::Host))
    );
    let worker = CallContext { caller_peer_id: "worker".to_string(), ..creator() };
    assert_eq!(
        check_kv_write("", &worker),
        Err(SpellError::WriteForbiddenForRole("".to_string(), Role::Worker))
    );
    assert_eq!(
        check_kv_write("hw_x", &creator()),
        Err(SpellError::WriteForbiddenForOutsider("hw_x".to_string()))
    );
    let both = CallContext {
        caller_peer_id: "host".to_string(),
        worker_id: "host".to_string(),
        ..creator()
    };
    assert_eq!(check_kv_write("w_x", &both), Ok(()));
    assert_eq!(check_kv_write("h_x", &both), Ok(()));
    assert_eq!(
        check_kv_write("x", &both),
        Err(SpellError::WriteForbiddenForHostAndWorker("x".to_string()))
    );
}

#[test]
fn test_role_set() {
    let mut set = RoleSet::new();
    assert!(set.is_empty());
    assert!(set.insert(Role::Worker));
    assert!(!set.insert(Role::Worker));
    assert!(set.contains(&Role::Worker));
    assert!(!set.contains(&Role::Host));
    assert!(!set.is_empty());
    assert_eq!(set, RoleSet::from_roles(&[Role::Worker, Role::Worker]));
    assert!(set.intersects(&RoleSet::from_roles(&[Role::Host, Role::Worker])));
    assert!(!set.intersects(&RoleSet::from_roles(&[Role::Host, Role::Spell])));
    assert_eq!(RoleSet::from_roles(&[]), RoleSet::default());
}

#[test]
fn test_error_texts() {
    let text = |e: SpellError| e.message();
    assert_eq!(
        text(SpellError::SqliteError("disk full".to_string())),
        "Internal Sqlite error: disk full"
    );
    assert_eq!(text(SpellError::KeyNotExists("k".to_string())), "Key 'k' does not exist");
    assert_eq!(text(SpellError::NoRelay), "Location not available: relay was not set");
    assert_eq!(
        text(SpellError::SetRelayForbidden),
        "Only owner of the spell can set relay peer id"
    );
    assert_eq!(
        text(SpellError::RelayAlreadySet),
        "Relay was already set and cannot be changed"
    );
    assert_eq!(
        text(SpellError::SetTriggerConfigForbidden),
        "Only owner of the spell can set trigger config"
    );
    assert_eq!(
        text(SpellError::NoTriggerConfig),
        "Trigger Config is not set. Use set_trigger_config to set it."
    );
    assert_eq!(
        text(SpellError::WriteForbiddenForRole("w_k".to_string(), Role::Host)),
        "writing to the `w_k` is forbidden for the callers with the role Host"
    );
    assert_eq!(
        text(SpellError::WriteForbiddenForHostAndWorker("k".to_string())),
        "writing to the `k` is forbidden for the callers with the roles Host and Worker"
    );
    assert_eq!(
        text(SpellError::WriteForbiddenForOutsider("k".to_string())),
        "writing to the `k` is forbidden for any outside caller"
    );
    assert_eq!(
        text(SpellError::NotJsonObject("eof".to_string())),
        "passed string must represent a JSON object: eof"
    );
    assert_eq!(
        text(SpellError::StoreLogForbidden),
        "store_log can be called only by the associated spell script"
    );
    assert_eq!(
        text(SpellError::PopMailboxForbidden),
        "pop_mailbox can be called only by the associated spell script"
    );
    assert_eq!(
        text(SpellError::StoreErrorForbidden),
        "store_error can be called only by the associated spell script"
    );
    assert_eq!(
        text(SpellError::SetScriptForbidden),
        "Only owner of the service can set the script"
    );
    assert_eq!(
        text(SpellError::ScriptAlreadySet),
        "Script can be set only once, and it was already set"
    );
    assert_eq!(text(SpellError::NoScript), "Script was not set");
    assert_eq!(role_text(Role::Spell), "Spell");
    assert_eq!(role_text(Role::Worker), "Worker");
}

#[test]
fn test_error_renderings() {
    assert_eq!(format_error(&SpellError::NoRelay), "NoRelay");
    assert_eq!(format_error(&SpellError::SetRelayForbidden), "SetRelayForbidden");
    assert_eq!(
        format_error(&SpellError::KeyNotExists("k".to_string())),
        "KeyNotExists(\"k\")"
    );
    assert_eq!(
        format_error(&SpellError::WriteForbiddenForRole("w_k".to_string(), Role::Host)),
        "WriteForbiddenForRole(\"w_k\", Host)"
    );
    let all = vec![
        SpellError::SqliteError("disk \"full\"\n".to_string()),
        SpellError::KeyNotExists("ключ\t\\".to_string()),
        SpellError::NoRelay,
        SpellError::SetRelayForbidden,
        SpellError::RelayAlreadySet,
        SpellError::SetTriggerConfigForbidden,
        SpellError::NoTriggerConfig,
        SpellError::WriteForbiddenForRole("k".to_string(), Role::Spell),
        SpellError::WriteForbiddenForRole("k'".to_string(), Role::Worker),
        SpellError::WriteForbiddenForHostAndWorker("".to_string()),
        SpellError::WriteForbiddenForOutsider("k".to_string()),
        SpellError::NotJsonObject("eof".to_string()),
        SpellError::StoreLogForbidden,
        SpellError::PopMailboxForbidden,
        SpellError::StoreErrorForbidden,
        SpellError::SetScriptForbidden,
        SpellError::ScriptAlreadySet,
        SpellError::NoScript,
    ];
    for e in all {
        assert_eq!(format_error(&e), format!("{:?}", e));
    }
}

#[test]
fn test_unit_values() {
    let ok = UnitValue::ok();
    assert!(ok.success);
    assert!(ok.is_success());
    assert_eq!(ok.error, "");
    let error = UnitValue::error("broken");
    assert!(!error.success);
    assert_eq!(error.clone().take_error(), "broken");
    assert_eq!(UnitValue::spell_error(SpellError::NoRelay).error, "NoRelay");
    assert_eq!(UnitValue::from(Ok(())), ok);
    assert_eq!(
        UnitValue::from(Err(SpellError::NoRelay)),
        UnitValue::error("Location not available: relay was not set")
    );
    assert_eq!(
        UnitValue::from(SpellError::RelayAlreadySet),
        UnitValue::error("RelayAlreadySet")
    );

    let ok = UnitResult::ok();
    assert!(ok.is_success());
    assert_eq!(ok.reason(), "");
    let error = UnitResult::error("broken");
    assert!(!error.is_success());
    assert_eq!(error.reason(), "broken");
    assert_eq!(UnitResult::from(Ok(())), UnitResult::ok());
    assert_eq!(
        UnitResult::from(Err(SpellError::NoScript)),
        UnitResult::error("Script was not set")
    );
}

#[test]
fn test_values_from_results() {
    let v = StringValue::from(Ok(Some("s".to_string())));
    assert!(v.success && !v.absent);
    assert_eq!(v.value, "s");
    let v = StringValue::from(Ok(None));
    assert!(v.success && v.absent);
    assert_eq!(v.value, "");
    let v = StringValue::from(Err(SpellError::KeyNotExists("k".to_string())));
    assert!(!v.success && !v.absent);
    assert_eq!(v.error, "Key 'k' does not exist");

    let v = U32Value::from(Ok(Some(5)));
    assert!(v.success && !v.absent);
    assert_eq!(v.value, 5);
    let v = U32Value::from(Ok(None));
    assert!(v.success && v.absent);
    assert_eq!(v.value, 0);
    let v = U32Value::from(Err(SpellError::NoRelay));
    assert!(!v.is_success() && !v.absent);

    let v = StringListValue::from(Ok(vec!["a".to_string()]));
    assert!(v.success);
    assert_eq!(v.value, vec!["a"]);
    let v = StringListValue::from(Err(SpellError::NoRelay));
    assert!(!v.success && v.value.is_empty());

    let v = BoolValue::from(Ok(true));
    assert!(v.success && v.value);
    let v = BoolValue::from(Err(SpellError::NoRelay));
    assert!(!v.success && !v.value);

    let v = GetMailboxResult::from(Err(SpellError::NoRelay));
    assert!(!v.success && v.messages.is_empty());
    assert_eq!(
        v.error,
        "get_mailbox error: Location not available: relay was not set"
    );
    let v = GetLogsResult::from(Err(SpellError::NoRelay));
    assert!(!v.success && v.logs.is_empty());
    assert_eq!(v.error, "get_logs error: Location not available: relay was not set");
    assert!(GetLogsResult::from(Ok(vec![])).success);
    let v = PopMailboxResult::from(Err(SpellError::PopMailboxForbidden));
    assert!(!v.success && !v.absent && v.message.is_empty());

    let v = LocationValue::error(&SpellError::NoRelay);
    assert!(!v.success);
    assert_eq!(v.error, "Location not available: relay was not set");
    let v = LocationValue::success("r".to_string(), &creator());
    assert!(v.success);
    assert_eq!((v.relay.as_str(), v.host.as_str(), v.service_id.as_str()), ("r", "host", "service"));
}

#[test]
fn test_text_helpers() {
    assert_eq!(chars_of("aв"), vec!['a', 'в']);
    assert!(str_eq("хаха", "хаха"));
    assert!(!str_eq("a", "b"));
    assert!(!str_eq("a", "ab"));
    assert!(str_eq("", ""));
    let list = vec!["a".to_string(), "".to_string()];
    assert_eq!(clone_strings(&list), list);
}
