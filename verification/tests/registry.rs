use dcbothub::process::ProcessRecord;
use dcbothub::registry::Registry;
use dcbothub::BotInstances;

fn key(s: &str) -> String {
    s.to_string()
}

#[test]
fn new_registry_is_empty() {
    let registry: BotInstances = Registry::new();
    assert_eq!(registry.len(), 0);
    assert!(!registry.contains_key(&key("echo")));
    assert_eq!(registry.get(&key("echo")), None);
    assert_eq!(registry.position(&key("echo")), None);
}

#[test]
fn inserted_records_are_found() {
    let mut registry: BotInstances = Registry::new();
    registry.insert(key("echo"), ProcessRecord::Spawned);
    registry.insert(key("greeter"), ProcessRecord::SpawnFailed(key("no such file")));
    assert_eq!(registry.len(), 2);
    assert_eq!(registry.get(&key("echo")), Some(&ProcessRecord::Spawned));
    assert_eq!(
        registry.get(&key("greeter")),
        Some(&ProcessRecord::SpawnFailed(key("no such file")))
    );
    assert_eq!(registry.position(&key("greeter")), Some(1));
    assert_eq!(registry.key_at(0), "echo");
    assert_eq!(registry.value_at(1), &ProcessRecord::SpawnFailed(key("no such file")));
}

#[test]
fn insert_replaces_in_place() {
    let mut registry: BotInstances = Registry::new();
    registry.insert(key("a"), ProcessRecord::Spawned);
    registry.insert(key("b"), ProcessRecord::Spawned);
    registry.insert(key("a"), ProcessRecord::Exited(3));
    assert_eq!(registry.len(), 2);
    assert_eq!(registry.key_at(0), "a");
    assert_eq!(registry.get(&key("a")), Some(&ProcessRecord::Exited(3)));
    assert_eq!(registry.get(&key("b")), Some(&ProcessRecord::Spawned));
}

#[test]
fn remove_takes_the_record_out() {
    let mut registry: BotInstances = Registry::new();
    registry.insert(key("a"), ProcessRecord::Spawned);
    registry.insert(key("b"), ProcessRecord::Exited(0));
    registry.insert(key("c"), ProcessRecord::Spawned);
    assert_eq!(registry.remove(&key("b")), Some(ProcessRecord::Exited(0)));
    assert_eq!(registry.remove(&key("b")), None);
    assert_eq!(registry.len(), 2);
    assert_eq!(registry.key_at(0), "a");
    assert_eq!(registry.key_at(1), "c");
    assert!(!registry.contains_key(&key("b")));
}

#[test]
fn keys_are_compared_whole() {
    let mut registry: BotInstances = Registry::new();
    registry.insert(key("echo"), ProcessRecord::Spawned);
    assert!(!registry.contains_key(&key("ech")));
    assert!(!registry.contains_key(&key("echo ")));
    assert!(!registry.contains_key(&key("")));
    assert!(registry.contains_key(&key("echo")));
}
