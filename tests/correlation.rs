use moosync_host::correlation::CorrelationTable;
use moosync_host::strmap::StrMap;

#[test]
fn reply_reaches_the_registered_call() {
    let mut t: CorrelationTable<u32> = CorrelationTable::new();
    t.register("chan-1".to_string(), 1);
    t.register("chan-2".to_string(), 2);
    assert_eq!(t.handle_main_command_reply(&"chan-2".to_string()), Some(&2));
    assert_eq!(t.handle_main_command_reply(&"chan-1".to_string()), Some(&1));
    // the entry stays until the call ends
    assert_eq!(t.handle_main_command_reply(&"chan-1".to_string()), Some(&1));
}

#[test]
fn unknown_channel_is_ignored() {
    let t: CorrelationTable<u32> = CorrelationTable::new();
    assert_eq!(t.handle_main_command_reply(&"nobody".to_string()), None);
}

#[test]
fn finished_call_is_forgotten() {
    let mut t: CorrelationTable<u32> = CorrelationTable::new();
    t.register("c".to_string(), 9);
    assert_eq!(t.finish_call(&"c".to_string()), Some(9));
    assert_eq!(t.finish_call(&"c".to_string()), None);
    assert_eq!(t.handle_main_command_reply(&"c".to_string()), None);
}

#[test]
fn registering_again_replaces_the_sender() {
    let mut t: CorrelationTable<u32> = CorrelationTable::new();
    t.register("c".to_string(), 1);
    t.register("c".to_string(), 2);
    assert_eq!(t.handle_main_command_reply(&"c".to_string()), Some(&2));
    assert_eq!(t.finish_call(&"c".to_string()), Some(2));
    assert_eq!(t.handle_main_command_reply(&"c".to_string()), None);
}

#[test]
fn begun_calls_get_fresh_tokens() {
    let mut t: CorrelationTable<u32> = CorrelationTable::new();
    let a = t.begin_call(1);
    let b = t.begin_call(2);
    assert_eq!(a.len(), 36);
    assert_ne!(a, b);
    assert_eq!(t.handle_main_command_reply(&a), Some(&1));
    assert_eq!(t.handle_main_command_reply(&b), Some(&2));
}

#[test]
fn fresh_key_steps_past_taken_keys() {
    let mut m: StrMap<u32> = StrMap::new();
    m.insert("abc".to_string(), 1);
    m.insert("abc--".to_string(), 2);
    assert_eq!(m.fresh_key("new".to_string()), "new");
    let k = m.fresh_key("abc".to_string());
    assert!(k.starts_with("abc"));
    assert!(!m.contains_key(&k));
    assert_eq!(k, "abc---");
}

#[test]
fn fresh_value_avoids_used_values() {
    let mut m: StrMap<String> = StrMap::new();
    m.insert("p".to_string(), "chan".to_string());
    assert_eq!(m.fresh_value("other".to_string()), "other");
    assert_eq!(m.fresh_value("chan".to_string()), "chan-");
}
