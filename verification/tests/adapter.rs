use seed_devtools::devtools::{notification_envelope, DevTools, WithDevtools};
use seed_devtools::errors::{ChannelError, LogEntry, SerializationError};
use seed_devtools::{Globals, Value};

const ROOT_KEY: &str = "SEED_DEVTOOLS_EXTENSION";

fn obj(fields: Vec<(&str, Value)>) -> Value {
    Value::Obj(fields.into_iter().map(|(k, v)| (k.to_string(), v)).collect())
}

fn field<'a>(v: &'a Value, key: &str) -> Option<&'a Value> {
    match v {
        Value::Obj(fs) => fs.iter().find(|p| p.0 == key).map(|p| &p.1),
        _ => None,
    }
}

fn root<'a>(env: &'a Globals) -> Option<&'a Value> {
    env.slots.iter().find(|p| p.0 == ROOT_KEY).map(|p| &p.1)
}

fn str_of(v: &Value) -> &str {
    match v {
        Value::Str(s) => s,
        _ => panic!("not a string"),
    }
}

fn arr_of(v: &Value) -> &Vec<Value> {
    match v {
        Value::Arr(a) => a,
        _ => panic!("not an array"),
    }
}

fn ser_err(detail: &str) -> SerializationError {
    SerializationError { detail: detail.to_string() }
}

fn present_channel() -> Globals {
    let mut env = Globals::new();
    let dt = DevTools::new();
    dt.init(&mut env).unwrap_or(());
    env
}

fn count_model(n: i64) -> Value {
    obj(vec![("count", Value::Int(n))])
}

fn inc_message() -> Value {
    obj(vec![("type", Value::Str("inc".to_string()))])
}

#[test]
fn initialized_creates_channel_and_publishes() {
    let dt = DevTools::new();
    let mut env = Globals::new();
    let report = dt.initialized(&mut env, Ok(count_model(0)));

    let c = root(&env).expect("channel created");
    assert_eq!(arr_of(field(c, "messages").unwrap()).len(), 0);
    assert_eq!(str_of(field(c, "version").unwrap()), "0.1.0");
    let m = field(c, "model").unwrap();
    assert!(matches!(field(m, "count"), Some(Value::Int(0))));
    assert!(report.written);
    assert_eq!(report.notifications.len(), 1);
    assert_eq!(report.logs.len(), 0);
}

#[test]
fn notification_envelope_is_exact() {
    let v = notification_envelope();
    assert_eq!(str_of(field(&v, "type").unwrap()), "TO_SEED_DEVTOOLS");
    assert_eq!(str_of(field(&v, "action").unwrap()), "RELOAD_MODEL");
    match &v {
        Value::Obj(fs) => assert_eq!(fs.len(), 2),
        _ => panic!("envelope is an object"),
    }
}

#[test]
fn received_appends_duplicate_message() {
    let dt = DevTools::new();
    let mut env = present_channel();
    let first = dt.received(&mut env, Ok(inc_message()), Some(&count_model(0)));
    assert!(first.recorded);
    let second = dt.received(&mut env, Ok(inc_message()), Some(&count_model(0)));
    assert!(second.recorded);

    let c = root(&env).unwrap();
    let msgs = arr_of(field(c, "messages").unwrap());
    assert_eq!(msgs.len(), 2);
    for m in msgs {
        assert_eq!(str_of(field(m, "type").unwrap()), "inc");
    }
}

#[test]
fn updated_on_malformed_root_logs_and_leaves_it() {
    let dt = DevTools::new();
    let mut env = Globals::new();
    env.set(ROOT_KEY.to_string(), Value::Int(42));
    let report = dt.updated(&mut env, Ok(count_model(1)));

    assert!(!report.written);
    assert_eq!(report.logs.len(), 1);
    match &report.logs[0] {
        LogEntry::ChannelFailed(ChannelError::NotFound { key }) => assert_eq!(key, ROOT_KEY),
        _ => panic!("expected a channel failure"),
    }
    assert!(matches!(root(&env), Some(Value::Int(42))));
    assert_eq!(report.notifications.len(), 1);
}

#[test]
fn get_root_fails_when_key_absent() {
    let dt = DevTools::new();
    let env = Globals::new();
    match dt.get_root(&env) {
        Err(ChannelError::NotFound { key }) => assert_eq!(key, ROOT_KEY),
        Ok(()) => panic!("absent key must not resolve"),
    }
}

#[test]
fn get_root_fails_on_primitive() {
    let dt = DevTools::new();
    let mut env = Globals::new();
    env.set(ROOT_KEY.to_string(), Value::Str("nope".to_string()));
    assert!(dt.get_root(&env).is_err());
}

#[test]
fn get_root_succeeds_on_object() {
    let dt = DevTools::new();
    let mut env = Globals::new();
    env.set(ROOT_KEY.to_string(), obj(vec![]));
    assert!(dt.get_root(&env).is_ok());
}

#[test]
fn init_resets_channel_regardless_of_prior_content() {
    let dt = DevTools::new();
    let mut env = Globals::new();
    env.set("other".to_string(), Value::Int(9));
    env.set(
        ROOT_KEY.to_string(),
        obj(vec![
            ("version", Value::Str("old".to_string())),
            ("model", Value::Int(1)),
            ("messages", Value::Arr(vec![Value::Int(2)])),
        ]),
    );
    assert!(dt.init(&mut env).is_ok());

    let c = root(&env).unwrap();
    match c {
        Value::Obj(fs) => assert_eq!(fs.len(), 2),
        _ => panic!("channel is an object"),
    }
    assert_eq!(str_of(field(c, "version").unwrap()), "0.1.0");
    assert_eq!(arr_of(field(c, "messages").unwrap()).len(), 0);
    assert!(field(c, "model").is_none());
    let other = env.slots.iter().find(|p| p.0 == "other").map(|p| &p.1);
    assert!(matches!(other, Some(Value::Int(9))));
}

#[test]
fn save_model_writes_slot_and_notifies_once() {
    let dt = DevTools::new();
    let mut env = present_channel();
    let report = dt.save_model(&mut env, Ok(count_model(3)));

    assert!(report.written);
    assert_eq!(report.notifications.len(), 1);
    assert_eq!(report.logs.len(), 0);
    let c = root(&env).unwrap();
    let m = field(c, "model").unwrap();
    assert!(matches!(field(m, "count"), Some(Value::Int(3))));
    assert_eq!(arr_of(field(c, "messages").unwrap()).len(), 0);
}

#[test]
fn save_model_overwrites_previous_model() {
    let dt = DevTools::new();
    let mut env = present_channel();
    dt.save_model(&mut env, Ok(count_model(1)));
    dt.save_model(&mut env, Ok(count_model(2)));

    let c = root(&env).unwrap();
    let m = field(c, "model").unwrap();
    assert!(matches!(field(m, "count"), Some(Value::Int(2))));
}

#[test]
fn save_model_serialization_failure_writes_nothing() {
    let dt = DevTools::new();
    let mut env = present_channel();
    dt.save_model(&mut env, Ok(count_model(1)));
    let report = dt.save_model(&mut env, Err(ser_err("cyclic")));

    assert!(!report.written);
    assert_eq!(report.logs.len(), 1);
    match &report.logs[0] {
        LogEntry::SerializationFailed(e) => assert_eq!(e.detail, "cyclic"),
        _ => panic!("expected a serialization failure"),
    }
    let c = root(&env).unwrap();
    let m = field(c, "model").unwrap();
    assert!(matches!(field(m, "count"), Some(Value::Int(1))));
}

#[test]
fn save_message_serialization_failure_writes_nothing() {
    let dt = DevTools::new();
    let mut env = present_channel();
    let report = dt.save_message(&mut env, Err(ser_err("bad")), None);

    assert!(!report.recorded);
    assert_eq!(report.logs.len(), 1);
    assert!(matches!(&report.logs[0], LogEntry::SerializationFailed(_)));
    let c = root(&env).unwrap();
    assert_eq!(arr_of(field(c, "messages").unwrap()).len(), 0);
}

#[test]
fn save_message_missing_messages_slot_logs_and_returns() {
    let dt = DevTools::new();
    let mut env = Globals::new();
    env.set(ROOT_KEY.to_string(), obj(vec![("version", Value::Str("0.1.0".to_string()))]));
    let report = dt.save_message(&mut env, Ok(inc_message()), None);

    assert!(!report.recorded);
    assert_eq!(report.logs.len(), 1);
    match &report.logs[0] {
        LogEntry::MessagesSlotMalformed { key } => assert_eq!(key, "messages"),
        _ => panic!("expected a malformed messages slot"),
    }
    let c = root(&env).unwrap();
    assert!(field(c, "messages").is_none());
}

#[test]
fn save_message_non_array_messages_slot_left_untouched() {
    let dt = DevTools::new();
    let mut env = Globals::new();
    env.set(ROOT_KEY.to_string(), obj(vec![("messages", Value::Int(3))]));
    let report = dt.save_message(&mut env, Ok(inc_message()), None);

    assert!(!report.recorded);
    assert!(matches!(&report.logs[0], LogEntry::MessagesSlotMalformed { .. }));
    let c = root(&env).unwrap();
    assert!(matches!(field(c, "messages"), Some(Value::Int(3))));
}

#[test]
fn save_message_keeps_dispatch_order() {
    let dt = DevTools::new();
    let mut env = present_channel();
    for n in 1i64..=3 {
        let m = obj(vec![("n", Value::Int(n))]);
        let report = dt.save_message(&mut env, Ok(m), None);
        assert!(report.recorded);
    }

    let c = root(&env).unwrap();
    let msgs = arr_of(field(c, "messages").unwrap());
    assert_eq!(msgs.len(), 3);
    for (i, m) in msgs.iter().enumerate() {
        assert!(matches!(field(m, "n"), Some(Value::Int(k)) if *k == i as i64 + 1));
    }
}

#[test]
fn recording_is_independent_of_model_state() {
    let dt = DevTools::new();
    let mut env = Globals::new();
    env.set(ROOT_KEY.to_string(), obj(vec![("messages", Value::Arr(vec![]))]));
    let report = dt.save_message(&mut env, Ok(inc_message()), None);

    assert!(report.recorded);
    let c = root(&env).unwrap();
    assert_eq!(arr_of(field(c, "messages").unwrap()).len(), 1);
    assert!(field(c, "model").is_none());
}

#[test]
fn initialized_serialization_failure_still_creates_channel() {
    let dt = DevTools::new();
    let mut env = Globals::new();
    let report = dt.initialized(&mut env, Err(ser_err("boom")));

    assert!(!report.written);
    assert_eq!(report.notifications.len(), 1);
    assert!(matches!(&report.logs[0], LogEntry::SerializationFailed(_)));
    let c = root(&env).unwrap();
    assert!(field(c, "model").is_none());
    assert_eq!(arr_of(field(c, "messages").unwrap()).len(), 0);
}

#[test]
fn apply_installs_adapter_and_publishes_starting_model() {
    let with = WithDevtools::new();
    let mut env = Globals::new();
    let (dt, report) = with.apply(&mut env, Ok(count_model(0)));

    assert!(report.written);
    assert_eq!(report.notifications.len(), 1);
    let c = root(&env).unwrap();
    let m = field(c, "model").unwrap();
    assert!(matches!(field(m, "count"), Some(Value::Int(0))));

    let later = dt.updated(&mut env, Ok(count_model(5)));
    assert!(later.written);
}

#[test]
fn globals_set_overwrites_and_keeps_other_slots() {
    let mut env = Globals::new();
    env.set("a".to_string(), Value::Int(1));
    env.set("b".to_string(), Value::Int(2));
    env.set("a".to_string(), Value::Int(3));

    assert!(matches!(env.get(&"a".to_string()), Some(Value::Int(3))));
    assert!(matches!(env.get(&"b".to_string()), Some(Value::Int(2))));
    assert!(env.get(&"c".to_string()).is_none());
    assert_eq!(env.slots.len(), 2);
}
