use vault_client::session::SessionGate;

#[test]
fn capture_fires_only_on_first_home_page_load() {
    let mut gate = SessionGate::new();
    assert!(!gate.on_page_load("https://www.humblebundle.com/login"));
    assert!(gate.on_page_load("https://www.humblebundle.com/home"));
    assert!(!gate.on_page_load("https://www.humblebundle.com/home"));
    assert!(!gate.on_page_load("https://www.humblebundle.com/home?x=1"));
}

#[test]
fn home_page_with_query_counts_as_home() {
    let mut gate = SessionGate::new();
    assert!(gate.on_page_load("https://www.humblebundle.com/home?from=login"));
}

#[test]
fn other_pages_never_trip_the_gate() {
    let mut gate = SessionGate::new();
    assert!(!gate.on_page_load("https://www.humblebundle.com/store"));
    assert!(!gate.on_page_load(""));
    assert!(!gate.processed);
}
