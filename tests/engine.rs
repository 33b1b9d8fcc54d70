use kv::{
    after_hook, after_received, dispatch, run, CommandRequest, CommandResponse, KvError, Kvpair,
    MemTable, Notify, Reply, Scalar, Service, Storage, Value,
};

fn ival(i: i64) -> Value {
    Value { value: Some(Scalar::Integer(i)) }
}

fn bval(b: bool) -> Value {
    Value { value: Some(Scalar::Bool(b)) }
}

fn text(s: &str) -> Value {
    Value { value: Some(Scalar::String(s.to_string())) }
}

fn same(a: &Value, b: &Value) -> bool {
    format!("{:?}", a) == format!("{:?}", b)
}

fn keys(ks: &[&str]) -> Vec<String> {
    ks.iter().map(|k| k.to_string()).collect()
}

#[test]
fn unset_key_get_delete_exists() {
    let mut s = MemTable::new();
    assert!(s.get("t", "k").is_none());
    assert!(s.del("t", "k").is_none());
    assert!(!s.contains("t", "k"));
    let r = dispatch(&CommandRequest::new_hget("t", "k"), &mut s);
    assert_eq!(r.status, 404);
    let r = dispatch(&CommandRequest::new_hdel("t", "k"), &mut s);
    assert_eq!(r.status, 404);
    assert_eq!(r.message, "k not found in t");
    let r = dispatch(&CommandRequest::new_hexist("t", "k"), &mut s);
    assert_eq!(r.status, 200);
    assert!(same(&r.values[0], &bval(false)));
}

#[test]
fn set_then_get_round_trip() {
    let mut s = MemTable::new();
    let values = vec![
        text("hello"),
        ival(-7),
        bval(true),
        Value::from_float_bits(3.5f64.to_bits()),
        Value { value: Some(Scalar::Binary(vec![0, 1, 255])) },
    ];
    for (i, v) in values.iter().enumerate() {
        let key = format!("k{}", i);
        assert!(s.set("t", &key, v.clone()).is_none());
        let got = s.get("t", &key).unwrap();
        assert!(same(&got, v));
    }
    match s.get("t", "k3").unwrap().value {
        Some(Scalar::Float(bits)) => assert_eq!(f64::from_bits(bits), 3.5),
        _ => panic!("expected a float"),
    }
}

#[test]
fn set_twice_keeps_second_and_returns_first() {
    let mut s = MemTable::new();
    assert!(s.set("t", "k", ival(1)).is_none());
    let prev = s.set("t", "k", ival(2)).unwrap();
    assert!(same(&prev, &ival(1)));
    assert!(same(&s.get("t", "k").unwrap(), &ival(2)));
    assert_eq!(s.get_all("t").len(), 1);
}

#[test]
fn get_all_after_distinct_sets() {
    let mut s = MemTable::new();
    for i in 0..5i64 {
        s.set("t", &format!("key{}", i), ival(i));
    }
    let all = s.get_all("t");
    assert_eq!(all.len(), 5);
    for i in 0..5i64 {
        let key = format!("key{}", i);
        let n = all.iter().filter(|p| p.key == key).count();
        assert_eq!(n, 1);
        let p = all.iter().find(|p| p.key == key).unwrap();
        assert!(same(&p.value, &ival(i)));
    }
    assert!(s.get_all("other").is_empty());
}

#[test]
fn delete_twice_not_found_second_time() {
    let mut s = MemTable::new();
    s.set("t", "k", ival(5));
    let r = dispatch(&CommandRequest::new_hdel("t", "k"), &mut s);
    assert_eq!(r.status, 200);
    assert!(same(&r.values[0], &ival(5)));
    let r = dispatch(&CommandRequest::new_hdel("t", "k"), &mut s);
    assert_eq!(r.status, 404);
    let r = dispatch(&CommandRequest::new_hdel("t", "k"), &mut s);
    assert_eq!(r.status, 404);
    assert!(s.get_all("t").is_empty());
}

#[test]
fn batch_get_skips_missing_keys() {
    let mut s = MemTable::new();
    s.set("t", "k1", ival(1));
    s.set("t", "k3", ival(3));
    let r = dispatch(&CommandRequest::new_hmget("t", keys(&["k1", "k2", "k3"])), &mut s);
    assert_eq!(r.status, 200);
    assert!(r.message.is_empty());
    assert_eq!(r.values.len(), 2);
    assert!(same(&r.values[0], &ival(1)));
    assert!(same(&r.values[1], &ival(3)));
}

#[test]
fn users_scenario() {
    let mut s = MemTable::new();
    let r = dispatch(&CommandRequest::new_hset("users", "alice", ival(42)), &mut s);
    assert_eq!(r.status, 200);
    assert_eq!(r.values.len(), 1);
    assert!(same(&r.values[0], &ival(42)));
    assert!(r.pairs.is_empty());
    let r = dispatch(&CommandRequest::new_hget("users", "bob"), &mut s);
    assert_eq!(r.status, 404);
    assert_eq!(r.message, "bob not found in users");
    assert!(r.values.is_empty());
    let r = dispatch(&CommandRequest::new_hexist("users", "alice"), &mut s);
    assert_eq!(r.status, 200);
    assert_eq!(r.values.len(), 1);
    assert!(same(&r.values[0], &bval(true)));
}

#[test]
fn empty_command_is_bad_request() {
    let mut s = MemTable::new();
    let r = dispatch(&CommandRequest { request_data: None }, &mut s);
    assert_eq!(r.status, 400);
    assert!(!r.message.is_empty());
    assert_eq!(r.message, "invalid command: empty command payload");
    assert!(r.values.is_empty() && r.pairs.is_empty());
}

#[test]
fn hundred_sets_then_get_all() {
    let mut s = MemTable::new();
    for i in 0..100i64 {
        let r = dispatch(&CommandRequest::new_hset("fresh", &format!("k{}", i), ival(i)), &mut s);
        assert_eq!(r.status, 200);
    }
    let r = dispatch(&CommandRequest::new_hgetall("fresh"), &mut s);
    assert_eq!(r.status, 200);
    assert_eq!(r.pairs.len(), 100);
    let mut seen: Vec<String> = r.pairs.iter().map(|p| p.key.clone()).collect();
    seen.sort();
    seen.dedup();
    assert_eq!(seen.len(), 100);
}

#[test]
fn batch_set_returns_previous_values() {
    let mut s = MemTable::new();
    s.set("t", "a", ival(1));
    let pairs = vec![Kvpair::new("a", ival(10)), Kvpair::new("b", ival(20)), Kvpair::new("b", ival(30))];
    let r = dispatch(&CommandRequest::new_hmset("t", pairs), &mut s);
    assert_eq!(r.status, 200);
    assert_eq!(r.values.len(), 3);
    assert!(same(&r.values[0], &ival(1)));
    assert!(r.values[1].value.is_none());
    assert!(same(&r.values[2], &ival(20)));
    assert!(same(&s.get("t", "b").unwrap(), &ival(30)));
}

#[test]
fn batch_exists_and_delete() {
    let mut s = MemTable::new();
    s.set("t", "a", ival(1));
    s.set("t", "c", ival(3));
    let r = dispatch(&CommandRequest::new_hmexist("t", keys(&["a", "b", "c"])), &mut s);
    assert_eq!(r.values.len(), 3);
    assert!(same(&r.values[0], &bval(true)));
    assert!(same(&r.values[1], &bval(false)));
    assert!(same(&r.values[2], &bval(true)));
    let r = dispatch(&CommandRequest::new_hmdel("t", keys(&["a", "b", "a", "c"])), &mut s);
    assert_eq!(r.status, 200);
    assert_eq!(r.values.len(), 2);
    assert!(same(&r.values[0], &ival(1)));
    assert!(same(&r.values[1], &ival(3)));
    assert!(s.get_all("t").is_empty());
}

#[test]
fn tables_are_isolated() {
    let mut s = MemTable::new();
    s.set("a", "k", ival(1));
    s.set("b", "k", ival(2));
    assert!(same(&s.get("a", "k").unwrap(), &ival(1)));
    assert!(same(&s.get("b", "k").unwrap(), &ival(2)));
    s.del("a", "k");
    assert!(s.get("a", "k").is_none());
    assert!(same(&s.get("b", "k").unwrap(), &ival(2)));
    assert!(s.get("A", "k").is_none());
}

#[test]
fn error_statuses_and_messages() {
    let e = KvError::NotFound("users".to_string(), "bob".to_string());
    assert_eq!(e.status(), 404);
    assert_eq!(e.message(), "bob not found in users");
    let e = KvError::InvalidCommand("bad".to_string());
    assert_eq!(e.status(), 400);
    assert_eq!(e.message(), "invalid command: bad");
    let e = KvError::Internal("disk".to_string());
    assert_eq!(e.status(), 500);
    assert_eq!(e.message(), "internal error: disk");
    let r = CommandResponse::from_error(KvError::Internal("hook".to_string()));
    assert_eq!(r.status, 500);
    assert_eq!(r.message, "internal error: hook");
}

#[test]
fn response_constructors() {
    let r = CommandResponse::from_value(ival(1));
    assert_eq!(r.status, 200);
    assert!(r.message.is_empty());
    let r = CommandResponse::from_values(vec![ival(1), ival(2)]);
    assert_eq!(r.values.len(), 2);
    let r = CommandResponse::from_pairs(vec![Kvpair::new("k", ival(1))]);
    assert_eq!(r.pairs.len(), 1);
    assert!(r.values.is_empty());
}

#[test]
fn value_conversions() {
    assert!(same(&Value::from(42i64), &ival(42)));
    assert!(same(&Value::from(true), &bval(true)));
    assert!(same(&Value::from("x".to_string()), &text("x")));
    assert!(Value::empty().value.is_none());
    let v = Value { value: Some(Scalar::Binary(vec![9, 8])) };
    assert!(same(&v.duplicate(), &v));
}

enum Hook {
    Deny,
    Redact,
    Watch,
    Broken,
}

impl Notify for Hook {
    fn on_received(&self, _cmd: &CommandRequest) -> Result<Option<CommandResponse>, String> {
        match self {
            Hook::Deny => Ok(Some(CommandResponse::from_error(KvError::InvalidCommand("denied".to_string())))),
            _ => Ok(None),
        }
    }

    fn on_executed(&self, _cmd: &CommandRequest, _outcome: &Result<Reply, KvError>) -> Result<(), String> {
        match self {
            Hook::Broken => Err("hook failed".to_string()),
            _ => Ok(()),
        }
    }

    fn on_before_send(&self, res: &mut CommandResponse) -> Result<(), String> {
        if let Hook::Redact = self {
            res.values.clear();
        }
        Ok(())
    }

    fn on_after_send(&self, _res: &CommandResponse) {}
}

#[test]
fn service_without_observers_dispatches() {
    let mut svc: Service<MemTable, Hook> = Service::new(MemTable::new());
    let r = svc.execute(CommandRequest::new_hset("users", "alice", ival(42)));
    assert_eq!(r.status, 200);
    let r = svc.execute(CommandRequest::new_hget("users", "alice"));
    assert!(same(&r.values[0], &ival(42)));
}

#[test]
fn service_observers_short_circuit_and_rewrite() {
    let mut svc = Service::new(MemTable::new());
    svc.register_notifier(Hook::Watch);
    svc.register_notifier(Hook::Redact);
    let r = svc.execute(CommandRequest::new_hset("t", "k", ival(1)));
    assert_eq!(r.status, 200);
    assert!(r.values.is_empty());
    svc.register_notifier(Hook::Deny);
    let r = svc.execute(CommandRequest::new_hdel("t", "k"));
    assert_eq!(r.status, 400);
    assert_eq!(r.message, "invalid command: denied");
}

#[test]
fn service_failing_observer_gives_internal_error() {
    let mut svc = Service::new(MemTable::new());
    svc.register_notifier(Hook::Broken);
    let r = svc.execute(CommandRequest::new_hset("t", "k", ival(1)));
    assert_eq!(r.status, 500);
    assert_eq!(r.message, "internal error: hook failed");
    assert!(r.values.is_empty());
}

#[test]
fn indexed_listing_matches_get_all() {
    let mut s = MemTable::new();
    for i in 0..4i64 {
        s.set("t", &format!("k{}", i), ival(i));
    }
    s.del("t", "k1");
    let all = s.get_all("t");
    assert_eq!(s.entry_count("t"), 3);
    assert_eq!(all.len(), 3);
    for (i, p) in all.iter().enumerate() {
        let q = s.get_entry("t", i).unwrap();
        assert_eq!(q.key, p.key);
        assert!(same(&q.value, &p.value));
    }
    assert!(s.get_entry("t", 3).is_none());
    assert_eq!(s.entry_count("missing"), 0);
    assert!(s.get_entry("missing", 0).is_none());
}

#[test]
fn run_gives_raw_outcome() {
    let mut s = MemTable::new();
    match run(&CommandRequest::new_hget("t", "k"), &mut s) {
        Err(KvError::NotFound(t, k)) => {
            assert_eq!(t, "t");
            assert_eq!(k, "k");
        }
        _ => panic!("expected not found"),
    }
    match run(&CommandRequest::new_hset("t", "k", ival(3)), &mut s) {
        Ok(Reply::One(v)) => assert!(same(&v, &ival(3))),
        _ => panic!("expected one value"),
    }
    match run(&CommandRequest::new_hgetall("t"), &mut s) {
        Ok(Reply::Entries(ps)) => assert_eq!(ps.len(), 1),
        _ => panic!("expected entries"),
    }
    assert!(matches!(run(&CommandRequest { request_data: None }, &mut s), Err(KvError::InvalidCommand(_))));
}

#[test]
fn chain_steps() {
    assert!(after_received(Ok(None)).is_none());
    let early = CommandResponse::from_value(ival(9));
    let r = after_received(Ok(Some(early))).unwrap();
    assert!(same(&r.values[0], &ival(9)));
    let r = after_received(Err("boom".to_string())).unwrap();
    assert_eq!(r.status, 500);
    assert_eq!(r.message, "internal error: boom");
    let r = after_hook(CommandResponse::from_value(ival(1)), Ok(()));
    assert_eq!(r.status, 200);
    assert!(same(&r.values[0], &ival(1)));
    let r = after_hook(CommandResponse::from_value(ival(1)), Err("late".to_string()));
    assert_eq!(r.status, 500);
    assert_eq!(r.message, "internal error: late");
    assert!(r.values.is_empty());
}
