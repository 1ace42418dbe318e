use macxlr::aggregates::{aggregates_enabled, is_present, AggregateRegistry};

fn strings(items: &[&str]) -> Vec<String> {
    items.iter().map(|s| s.to_string()).collect()
}

#[test]
fn aggregates_default_to_enabled() {
    assert!(aggregates_enabled(None));
    assert!(aggregates_enabled(Some(true)));
    assert!(!aggregates_enabled(Some(false)));
}

#[test]
fn register_once_per_device() {
    let mut reg = AggregateRegistry::new();
    let uid = "GoXLR-1".to_string();
    assert!(reg.needs_aggregates(&uid));
    assert!(reg.register(uid.clone(), vec![10, 11]));
    assert!(!reg.needs_aggregates(&uid));
    assert!(!reg.register(uid.clone(), vec![99]));
    assert_eq!(reg.entries().len(), 1);
    assert_eq!(reg.entries()[0].devices, vec![10, 11]);
}

#[test]
fn take_stale_splits_the_registry() {
    let mut reg = AggregateRegistry::new();
    reg.register("a".to_string(), vec![1]);
    reg.register("b".to_string(), vec![2, 3]);
    reg.register("c".to_string(), vec![4]);
    let stale = reg.take_stale(&strings(&["c", "a", "new"]));
    assert_eq!(stale.len(), 1);
    assert_eq!(stale[0].uid, "b");
    assert_eq!(stale[0].devices, vec![2, 3]);
    let kept: Vec<&str> = reg.entries().iter().map(|e| e.uid.as_str()).collect();
    assert_eq!(kept, vec!["a", "c"]);
    assert!(reg.needs_aggregates(&"b".to_string()));
    let all_gone = reg.take_stale(&strings(&[]));
    assert_eq!(all_gone.len(), 2);
    assert!(reg.entries().is_empty());
}

#[test]
fn presence_check() {
    let present = strings(&["x", "y"]);
    assert!(is_present(&present, &"y".to_string()));
    assert!(!is_present(&present, &"z".to_string()));
}

#[test]
fn one_poll_removes_gone_and_registers_created() {
    let mut reg = AggregateRegistry::new();
    reg.register("kept".to_string(), vec![1]);
    reg.register("gone".to_string(), vec![2]);
    let present = strings(&["kept", "new-ok", "new-failed", "new-ok"]);
    let stale = reg.take_stale(&present);
    assert_eq!(stale.len(), 1);
    assert_eq!(stale[0].uid, "gone");
    // attempts in order: kept is not asked for; new-ok succeeds once; new-failed fails
    let mut asked = Vec::new();
    for uid in &present {
        if reg.needs_aggregates(uid) {
            asked.push(uid.clone());
            if uid == "new-ok" {
                reg.register(uid.clone(), vec![7, 8]);
            }
        }
    }
    assert_eq!(asked, strings(&["new-ok", "new-failed"]));
    let uids: Vec<&str> = reg.entries().iter().map(|e| e.uid.as_str()).collect();
    assert_eq!(uids, vec!["kept", "new-ok"]);
    assert_eq!(reg.entries()[0].devices, vec![1]);
}
