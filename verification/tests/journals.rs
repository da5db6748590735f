use spell::auth::roles::CallContext;
use spell::error_handling::{
    get_all_errors, get_errors, store_error, ErrorJournal, LastError, LastErrorEntry, Particle,
};
use spell::journal::{append_with_eviction, find_oldest, Journal};
use spell::log::{get_logs, store_log};
use spell::mailbox::{get_mailbox, pop_mailbox, push_mailbox};
use spell::schema::{
    create, DEFAULT_MAX_ERR_PARTICLES, DEFAULT_MAX_LOGS, DEFAULT_MAX_MAILBOX,
};
use spell::value::{Log, MailboxMessage};

fn cp(service_id: &str, particle_id: &str) -> CallContext {
    CallContext {
        caller_peer_id: "folex".to_string(),
        particle_id: particle_id.to_string(),
        service_id: service_id.to_string(),
        service_creator_peer_id: "folex".to_string(),
        worker_id: "".to_string(),
        host_id: "".to_string(),
    }
}

fn log(timestamp: u64, message: &str) -> Log {
    Log { timestamp, message: message.to_string() }
}

#[test]
fn test_store_log() {
    let mut store = create();
    let cp = cp("service", "spell_service");

    let store1 = store_log(&mut store.logs, &cp, "logloglog1".to_string(), 10);
    assert!(store1.success, "{}", store1.error);
    let store2 = store_log(&mut store.logs, &cp, "logloglog2".to_string(), 10);
    assert!(store2.success, "{}", store2.error);

    let logs = get_logs(&store.logs);
    assert!(logs.success, "{}", logs.error);
    assert_eq!(logs.logs, vec![log(10, "logloglog1"), log(10, "logloglog2")]);
}

#[test]
fn test_store_log_fails_on_non_spell() {
    let mut store = create();
    let stored = store_log(&mut store.logs, &cp("service", "spell_WRONG_123"), "l".to_string(), 1);
    assert!(!stored.success);
    assert_eq!(
        stored.error,
        "store_log can be called only by the associated spell script"
    );
    assert_eq!(get_logs(&store.logs).logs.len(), 0);

    // the right particle, but not the creator
    let mut other = cp("service", "spell_service_1");
    other.caller_peer_id = "someone".to_string();
    assert!(!store_log(&mut store.logs, &other, "l".to_string(), 1).success);
    assert_eq!(store.logs.len(), 0);
}

#[test]
fn test_log_lru() {
    let mut store = create();
    for i in 0..(DEFAULT_MAX_LOGS + 5) {
        let cp = cp("service", &format!("spell_service_{}", i));
        let stored = store_log(&mut store.logs, &cp, format!("log {i}"), 1000 + i as u64);
        assert!(stored.success, "{} {}", i, stored.error);
    }

    let logs = get_logs(&store.logs).logs;
    assert_eq!(logs.len(), DEFAULT_MAX_LOGS);
    assert_eq!(logs.len(), 50);
    for (k, entry) in logs.iter().enumerate() {
        assert_eq!(entry.message, format!("log {}", k + 5));
        assert!(entry.timestamp >= 1005, "newer than every log that left");
    }
}

#[test]
fn test_logs_are_read_in_time_order() {
    let mut logs: Journal<Log> = Journal::new(10);
    let cp = cp("s", "spell_s_0");
    for (t, m) in [(5, "a"), (3, "b"), (5, "c"), (1, "d"), (3, "e")] {
        assert!(store_log(&mut logs, &cp, m.to_string(), t).success);
    }
    assert_eq!(
        get_logs(&logs).logs,
        vec![log(1, "d"), log(3, "b"), log(3, "e"), log(5, "a"), log(5, "c")]
    );
    assert_eq!(logs.entries()[0], log(5, "a"));
}

#[test]
fn test_eviction_takes_the_oldest_by_time() {
    let mut journal = vec![log(5, "a"), log(3, "b"), log(3, "c")];
    assert_eq!(find_oldest(&journal), 1);
    append_with_eviction(&mut journal, log(4, "d"), 3);
    assert_eq!(journal, vec![log(5, "a"), log(3, "c"), log(4, "d")]);
    // an entry older than all others leaves at once
    append_with_eviction(&mut journal, log(1, "e"), 3);
    assert_eq!(journal, vec![log(5, "a"), log(3, "c"), log(4, "d")]);
    // a backlog is cleared
    append_with_eviction(&mut journal, log(9, "f"), 2);
    assert_eq!(journal, vec![log(5, "a"), log(9, "f")]);
    append_with_eviction(&mut journal, log(9, "g"), 0);
    assert!(journal.is_empty());
}

#[test]
fn test_journal_below_capacity_keeps_all() {
    let mut journal: Journal<Log> = Journal::new(3);
    assert_eq!(journal.capacity(), 3);
    journal.append(log(2, "a"));
    journal.append(log(1, "b"));
    assert_eq!(journal.len(), 2);
    assert_eq!(journal.newest_first(), vec![log(1, "b"), log(2, "a")]);
    assert_eq!(journal.in_time_order(), vec![log(1, "b"), log(2, "a")]);
    assert_eq!(journal.pop_newest(), Some(log(1, "b")));
    assert_eq!(journal.pop_newest(), Some(log(2, "a")));
    assert_eq!(journal.pop_newest(), None);
}

#[test]
fn test_push_mailbox() {
    let mut store = create();
    let cp = cp("service", "spell_service");

    let pushed = push_mailbox(&mut store.mailbox, &cp, "message1".to_string(), 7);
    assert!(pushed.success, "{}", pushed.error);
    let pushed = push_mailbox(&mut store.mailbox, &cp, "message2".to_string(), 8);
    assert!(pushed.success, "{}", pushed.error);

    let messages = get_mailbox(&store.mailbox);
    assert!(messages.success, "{}", messages.error);
    let messages = messages.messages;
    assert_eq!(messages.len(), 2);
    assert_eq!(messages[0].message, "message2");
    assert_eq!(messages[0].init_peer_id, cp.caller_peer_id);
    assert_eq!(messages[1].message, "message1");
    assert_eq!(messages[1].init_peer_id, cp.caller_peer_id);
    assert!(messages[0].timestamp >= messages[1].timestamp);
}

#[test]
fn test_push_mailbox_by_anyone() {
    let mut store = create();
    let mut stranger = cp("service", "whatever");
    stranger.caller_peer_id = "stranger".to_string();
    assert!(push_mailbox(&mut store.mailbox, &stranger, "hi".to_string(), 1).success);
    assert_eq!(
        get_mailbox(&store.mailbox).messages,
        vec![MailboxMessage {
            init_peer_id: "stranger".to_string(),
            timestamp: 1,
            message: "hi".to_string()
        }]
    );
}

#[test]
fn test_pop_mailbox_fails_on_non_spell() {
    let mut store = create();
    let cp = cp("service", "spell_service");
    assert!(push_mailbox(&mut store.mailbox, &cp, "message".to_string(), 1).success);

    let pop = pop_mailbox(&mut store.mailbox, &CallContext::default());
    assert!(!pop.success);
    assert!(!pop.absent);
    assert!(pop.message.is_empty());
    assert_eq!(
        pop.error,
        "pop_mailbox can be called only by the associated spell script"
    );
    assert_eq!(get_mailbox(&store.mailbox).messages.len(), 1);
}

#[test]
fn test_mailbox_lru() {
    let mut store = create();
    for i in 0..(DEFAULT_MAX_MAILBOX + 5) {
        let cp = cp("service", &format!("spell_service_{}", i));
        let pushed = push_mailbox(&mut store.mailbox, &cp, format!("m{i}"), i as u64);
        assert!(pushed.success, "{} {}", i, pushed.error);
    }
    let messages = get_mailbox(&store.mailbox).messages;
    assert_eq!(messages.len(), DEFAULT_MAX_MAILBOX);
    assert_eq!(messages[0].message, "m54");
    assert_eq!(messages[49].message, "m5");
}

#[test]
fn test_pop_mailbox() {
    let mut store = create();
    let cp = cp("service", "spell_service");
    assert!(push_mailbox(&mut store.mailbox, &cp, "first".to_string(), 1).success);
    assert!(push_mailbox(&mut store.mailbox, &cp, "message".to_string(), 2).success);

    let pop = pop_mailbox(&mut store.mailbox, &cp);
    assert!(pop.success, "{}", pop.error);
    assert!(!pop.absent);
    assert_eq!(pop.message.len(), 1);
    assert_eq!(pop.message[0].message, "message");

    assert_eq!(get_mailbox(&store.mailbox).messages.len(), 1);
    assert_eq!(pop_mailbox(&mut store.mailbox, &cp).message[0].message, "first");
    let pop = pop_mailbox(&mut store.mailbox, &cp);
    assert!(pop.success);
    assert!(pop.absent);
    assert!(pop.message.is_empty());
}

#[test]
fn test_mailbox_message_from_columns() {
    let m = MailboxMessage::from_columns("p".to_string(), 17, "m".to_string());
    assert_eq!(
        m,
        MailboxMessage { init_peer_id: "p".to_string(), timestamp: 17, message: "m".to_string() }
    );
}

fn sample_error() -> LastError {
    LastError {
        error_code: 1,
        instruction: "(null)".to_string(),
        message: "oh my god".to_string(),
        peer_id: "peerid".to_string(),
    }
}

#[test]
fn test_store_error() {
    let mut store = create();
    let particle_id = "spell_service_123";
    let cp = cp("service", particle_id);
    let error = sample_error();

    let stored = store_error(&mut store.errors, &cp, error.clone(), 321, 123);
    assert!(stored.success, "{}", stored.error);

    let errors = get_all_errors(&store.errors);
    assert!(errors.success);
    let errors = errors.particle_errors;
    assert_eq!(errors.len(), 1);
    assert_eq!(errors[0].particle_id, particle_id);
    assert_eq!(errors[0].errors.len(), 1);

    let e = &errors[0].errors[0];
    assert_eq!(e.error_idx, 321);
    assert_eq!(e.last_error, error);
    assert_eq!(
        get_errors(&store.errors, particle_id),
        vec![LastErrorEntry { last_error: error, error_idx: 321 }]
    );
    assert!(get_errors(&store.errors, "spell_service_124").is_empty());
}

#[test]
fn test_store_fails_on_non_spell() {
    let mut store = create();
    let stored = store_error(
        &mut store.errors,
        &cp("service", "spell_WRONG_123"),
        sample_error(),
        2,
        111,
    );
    assert!(!stored.success);
    assert_eq!(
        stored.error,
        "store_error can be called only by the associated spell script"
    );
    assert!(get_all_errors(&store.errors).particle_errors.is_empty());
}

#[test]
fn test_error_lru() {
    let mut store = create();
    for i in 0..(DEFAULT_MAX_ERR_PARTICLES + 5) {
        let cp = cp("service", &format!("spell_service_{}", i));
        for _ in 0..2 {
            let stored = store_error(&mut store.errors, &cp, sample_error(), 321, i as u64);
            assert!(stored.success, "{} {}", i, stored.error);
        }
    }

    let errors = get_all_errors(&store.errors).particle_errors;
    assert_eq!(errors.len(), DEFAULT_MAX_ERR_PARTICLES);
    for (k, err) in errors.iter().enumerate() {
        assert_eq!(err.particle_id, format!("spell_service_{}", k + 5));
        assert_eq!(err.errors.len(), 2);
    }
    assert!(get_errors(&store.errors, "spell_service_4").is_empty());
    assert_eq!(get_errors(&store.errors, "spell_service_5").len(), 2);
}

#[test]
fn test_errors_leave_with_their_particle() {
    let mut journal = ErrorJournal::new(2);
    let particle = |id: &str, t: u64| Particle { particle_id: id.to_string(), timestamp: t };
    let entry = |n: u32| LastErrorEntry { last_error: sample_error(), error_idx: n };
    journal.record(particle("a", 5), entry(1));
    journal.record(particle("b", 3), entry(2));
    journal.record(particle("a", 9), entry(3));
    journal.record(particle("c", 4), entry(4));
    // b was the oldest particle: a keeps the time of its first error
    let all = journal.all();
    assert_eq!(all.len(), 2);
    assert_eq!(all[0].particle_id, "a");
    assert_eq!(all[0].errors, vec![entry(1), entry(3)]);
    assert_eq!(all[1].particle_id, "c");
    assert_eq!(all[1].errors, vec![entry(4)]);
    assert!(journal.errors_of_particle("b").is_empty());
}

#[test]
fn test_last_error_entry_from_columns() {
    let e = LastErrorEntry::from_columns(
        7,
        4_294_967_295,
        "i".to_string(),
        "m".to_string(),
        "p".to_string(),
    );
    assert_eq!(e.error_idx, 7);
    assert_eq!(e.last_error.error_code, u32::MAX);
    assert_eq!(e.last_error.instruction, "i");
    assert_eq!(e.duplicate(), e);
}
