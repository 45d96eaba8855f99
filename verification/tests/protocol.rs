use window_reopen::session::WindowSystem;

fn identities(s: &WindowSystem) -> Vec<String> {
    s.open_windows.iter().map(|w| w.identity.clone()).collect()
}

#[test]
fn startup_opens_generation_zero() {
    let s = WindowSystem::startup();
    assert_eq!(s.counter, 0);
    assert_eq!(identities(&s), vec!["0-a", "0-b", "0-c", "0-d", "0-e", "0-f"]);
    assert_eq!(s.open_windows[0].title, "a (attempt 0)");
    assert_eq!(s.open_windows[5].title, "f (attempt 0)");
}

#[test]
fn untouched_without_reopen() {
    let s = WindowSystem::startup();
    // No reopen command: the startup-time window set stays as generation 0.
    assert_eq!(s.counter, 0);
    assert_eq!(identities(&s), vec!["0-a", "0-b", "0-c", "0-d", "0-e", "0-f"]);
}

#[test]
fn reopen_once_replaces_whole_set() {
    let mut s = WindowSystem::startup();
    let r = s.reopen(None);
    assert!(r.is_ok());
    assert_eq!(s.counter, 1);
    assert_eq!(identities(&s), vec!["1-a", "1-b", "1-c", "1-d", "1-e", "1-f"]);
    assert_eq!(s.open_windows[0].title, "a (attempt 1)");
    assert_eq!(s.open_windows[1].title, "b (attempt 1)");
    for w in &s.open_windows {
        assert!(!w.identity.starts_with("0-"));
    }
}

#[test]
fn reopen_twice_reaches_generation_two() {
    let mut s = WindowSystem::startup();
    s.reopen(None).unwrap();
    s.reopen(None).unwrap();
    assert_eq!(s.counter, 2);
    assert_eq!(identities(&s), vec!["2-a", "2-b", "2-c", "2-d", "2-e", "2-f"]);
}

#[test]
fn counter_observations_are_sequential_and_distinct() {
    let mut s = WindowSystem::startup();
    let mut observed: Vec<u32> = Vec::new();
    for k in 1..=5u32 {
        assert_eq!(s.next_generation(), k);
        s.reopen(None).unwrap();
        observed.push(s.counter);
    }
    assert_eq!(observed, vec![1, 2, 3, 4, 5]);
    for i in 0..observed.len() {
        for j in 0..observed.len() {
            if i != j {
                assert_ne!(observed[i], observed[j]);
            }
        }
    }
}

#[test]
fn failure_at_c_aborts_rest_of_batch() {
    let mut s = WindowSystem::startup();
    for _ in 0..4 {
        s.reopen(None).unwrap();
    }
    assert_eq!(s.counter, 4);
    let r = s.reopen(Some(2));
    assert_eq!(r, Err("Couldn't launch window".to_string()));
    assert_eq!(s.counter, 5);
    assert_eq!(identities(&s), vec!["5-a", "5-b"]);
    for missing in ["5-c", "5-d", "5-e", "5-f"] {
        assert!(!identities(&s).iter().any(|id| id == missing));
    }
}

#[test]
fn failure_at_first_open_leaves_no_window() {
    let mut s = WindowSystem::startup();
    let r = s.reopen(Some(0));
    assert!(r.is_err());
    assert_eq!(s.counter, 1);
    assert!(s.open_windows.is_empty());
}

#[test]
fn failure_at_last_open_keeps_first_five() {
    let mut s = WindowSystem::startup();
    let r = s.reopen(Some(5));
    assert_eq!(r, Err("Couldn't launch window".to_string()));
    assert_eq!(identities(&s), vec!["1-a", "1-b", "1-c", "1-d", "1-e"]);
}

#[test]
fn close_plan_lists_every_open_window() {
    let mut s = WindowSystem::startup();
    let plan = s.close_plan();
    assert_eq!(plan, vec!["0-a", "0-b", "0-c", "0-d", "0-e", "0-f"]);
    s.close_all();
    assert_eq!(s.counter, 0);
    assert!(s.open_windows.is_empty());
    assert!(s.close_plan().is_empty());
}

#[test]
fn open_batch_after_close_fills_the_set() {
    let mut s = WindowSystem::startup();
    s.close_all();
    let r = s.open_batch(9, None);
    assert!(r.is_ok());
    assert_eq!(s.counter, 0);
    assert_eq!(identities(&s), vec!["9-a", "9-b", "9-c", "9-d", "9-e", "9-f"]);
}
