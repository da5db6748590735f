use spell::auth::keys::{parse_permission, RoleSet};
use spell::auth::roles::{authenticate, CallContext, Role};
use spell::auth::is_kv_write_permitted;

const HOST_ID: &str = "host_id";
const OTHER_HOST_ID: &str = "other_host_id";
const SPELL_ID: &str = "spell-id";
const OTHER_SPELL_ID: &str = "spell-2-id";
const WORKER_ID: &str = "worker_id";
const PARTICLE_ID: &str = "particle-id";

const HOST_KEY: &str = "h_counter";
const WORKER_KEY: &str = "w_message";
const HOST_WORKER_KEY: &str = "hw_box";
const PRIVATE_KEY: &str = "spell_settings";

fn context(
    caller: &str,
    particle: &str,
    service: &str,
    creator: &str,
    worker: &str,
    host: &str,
) -> CallContext {
    CallContext {
        caller_peer_id: caller.to_string(),
        particle_id: particle.to_string(),
        service_id: service.to_string(),
        service_creator_peer_id: creator.to_string(),
        worker_id: worker.to_string(),
        host_id: host.to_string(),
    }
}

#[test]
fn test_key_parse() {
    let data = vec![
        ("h_worker_def_cid", RoleSet::from_roles(&[Role::Host])),
        (
            "w_fellow_spell_last_ping_timestamp",
            RoleSet::from_roles(&[Role::Worker]),
        ),
        (
            "hw_artificial_mailbox",
            RoleSet::from_roles(&[Role::Host, Role::Worker]),
        ),
        ("wh_count", RoleSet::new()),
        ("hword_count", RoleSet::new()),
        ("worker_settings", RoleSet::new()),
    ];
    for (key, result) in data {
        assert_eq!(result, parse_permission(key), "parsing {key}");
    }
}

// A host that accesses a spell on itself acts as the host and as the worker,
// so keys with h_, w_ and hw_ must be available
#[test]
fn test_permission_host_to_host_spell() {
    let cp = context(HOST_ID, PARTICLE_ID, SPELL_ID, HOST_ID, HOST_ID, HOST_ID);

    assert!(
        is_kv_write_permitted(HOST_KEY, &cp),
        "`{}` must be accessible",
        HOST_KEY
    );
    assert!(
        is_kv_write_permitted(HOST_WORKER_KEY, &cp),
        "`{}` must be accessible",
        HOST_WORKER_KEY
    );
    assert!(
        is_kv_write_permitted(WORKER_KEY, &cp),
        "`{}` must be accessible",
        WORKER_KEY
    );
    assert!(
        !is_kv_write_permitted(PRIVATE_KEY, &cp),
        "`{}` must NOT be accessible",
        PRIVATE_KEY
    );
}

// To self, everything must be accessible
#[test]
fn test_permission_host_to_self() {
    let cp = context(
        HOST_ID,
        &format!("spell_{SPELL_ID}_0"),
        SPELL_ID,
        HOST_ID,
        HOST_ID,
        HOST_ID,
    );

    assert!(
        is_kv_write_permitted(HOST_KEY, &cp),
        "`{}` must be accessible",
        HOST_KEY
    );
    assert!(
        is_kv_write_permitted(HOST_WORKER_KEY, &cp),
        "`{}` must be accessible",
        HOST_WORKER_KEY
    );
    assert!(
        is_kv_write_permitted(WORKER_KEY, &cp),
        "`{}` must be accessible",
        WORKER_KEY
    );
    assert!(
        is_kv_write_permitted(PRIVATE_KEY, &cp),
        "`{}` must be accessible",
        PRIVATE_KEY
    );
}

// A host that accesses a spell on a worker acts solely as the host
#[test]
fn test_permission_host_to_worker_spell() {
    let cp = context(HOST_ID, "some-particle", SPELL_ID, HOST_ID, WORKER_ID, HOST_ID);

    assert!(
        is_kv_write_permitted(HOST_KEY, &cp),
        "`{}` must be accessible",
        HOST_KEY
    );
    assert!(
        is_kv_write_permitted(HOST_WORKER_KEY, &cp),
        "`{}` must be accessible",
        HOST_WORKER_KEY
    );
    assert!(
        !is_kv_write_permitted(WORKER_KEY, &cp),
        "`{}` must NOT be accessible",
        WORKER_KEY
    );
    assert!(
        !is_kv_write_permitted(PRIVATE_KEY, &cp),
        "`{}` must NOT be accessible",
        PRIVATE_KEY
    );
}

// To self, everything must be accessible
#[test]
fn test_permission_worker_to_self() {
    let cp = context(
        WORKER_ID,
        &format!("spell_{SPELL_ID}_0"),
        SPELL_ID,
        HOST_ID,
        WORKER_ID,
        HOST_ID,
    );

    assert!(
        is_kv_write_permitted(HOST_KEY, &cp),
        "`{}` must be accessible",
        HOST_KEY
    );
    assert!(
        is_kv_write_permitted(HOST_WORKER_KEY, &cp),
        "`{}` must be accessible",
        HOST_WORKER_KEY
    );
    assert!(
        is_kv_write_permitted(WORKER_KEY, &cp),
        "`{}` must be accessible",
        WORKER_KEY
    );
    assert!(
        is_kv_write_permitted(PRIVATE_KEY, &cp),
        "`{}` must be accessible",
        PRIVATE_KEY
    );
}

// A spell on a worker that accesses another spell on the same worker has the
// worker's rights and can modify only w_ and hw_ keys
#[test]
fn test_permission_worker_spell_to_other_spell() {
    let cp = context(
        WORKER_ID,
        &format!("spell_{OTHER_SPELL_ID}_0"),
        SPELL_ID,
        HOST_ID,
        WORKER_ID,
        HOST_ID,
    );

    assert!(
        !is_kv_write_permitted(HOST_KEY, &cp),
        "`{}` must be NOT accessible",
        HOST_KEY
    );
    assert!(
        is_kv_write_permitted(HOST_WORKER_KEY, &cp),
        "`{}` must be accessible",
        HOST_WORKER_KEY
    );
    assert!(
        is_kv_write_permitted(WORKER_KEY, &cp),
        "`{}` must be accessible",
        WORKER_KEY
    );
    assert!(
        !is_kv_write_permitted(PRIVATE_KEY, &cp),
        "`{}` must be NOT accessible",
        PRIVATE_KEY
    );
}

#[test]
fn test_permission_other() {
    let cp = context(
        OTHER_HOST_ID,
        &format!("spell_{OTHER_SPELL_ID}_0"),
        SPELL_ID,
        HOST_ID,
        WORKER_ID,
        HOST_ID,
    );

    assert!(
        !is_kv_write_permitted(HOST_KEY, &cp),
        "`{}` must be NOT accessible",
        HOST_KEY
    );
    assert!(
        !is_kv_write_permitted(HOST_WORKER_KEY, &cp),
        "`{}` must be NOT accessible",
        HOST_WORKER_KEY
    );
    assert!(
        !is_kv_write_permitted(WORKER_KEY, &cp),
        "`{}` must be NOT accessible",
        WORKER_KEY
    );
    assert!(
        !is_kv_write_permitted(PRIVATE_KEY, &cp),
        "`{}` must be NOT accessible",
        PRIVATE_KEY
    );
}

#[test]
fn test_request_from_host_spell_to_self() {
    let cp_from_host = context(
        "host_id",
        "spell_spell-id_0",
        "spell-id",
        "host_id",
        "host_id",
        "host_id",
    );
    assert_eq!(RoleSet::from_roles(&[Role::Spell]), authenticate(&cp_from_host));
}

#[test]
fn test_request_from_host_spell_to_hosts_other_spell() {
    let cp_from_host = context(
        "host_id",
        "spell_spell-2-id_0",
        "spell-id",
        "host_id",
        "host_id",
        "host_id",
    );
    assert_eq!(
        RoleSet::from_roles(&[Role::Host, Role::Worker]),
        authenticate(&cp_from_host)
    );
}

#[test]
fn test_request_from_host_to_worker_spell() {
    let cp_from_host = context(
        "host_id",
        "spell_spell-2-id_0",
        "spell-id",
        "worker_id",
        "worker_id",
        "host_id",
    );
    assert_eq!(RoleSet::from_roles(&[Role::Host]), authenticate(&cp_from_host));
}

#[test]
fn test_request_from_worker_spell_to_self() {
    let cp_from_host = context(
        "worker_id",
        "spell_spell-1-id_0",
        "spell-1-id",
        "worker_id",
        "worker_id",
        "host_id",
    );
    assert_eq!(RoleSet::from_roles(&[Role::Spell]), authenticate(&cp_from_host));
}

#[test]
fn test_request_from_worker_spell_to_other_spell_on_the_worker() {
    let cp_from_host = context(
        "worker_id",
        "spell_spell-2-id_0",
        "spell-1-id",
        "worker_id",
        "worker_id",
        "host_id",
    );
    assert_eq!(RoleSet::from_roles(&[Role::Worker]), authenticate(&cp_from_host));
}

#[test]
fn test_request_from_other_worker() {
    let cp_from_host = context(
        "worker_2_id",
        "spell_spell-2-id_0",
        "spell-1-id",
        "worker_id",
        "worker_id",
        "host_id",
    );
    assert_eq!(RoleSet::new(), authenticate(&cp_from_host));
}
