use dura_runtime::RuntimeLock;

fn parse_pid(contents: &str) -> Option<u64> {
    let v: serde_json::Value = serde_json::from_str(contents).unwrap();
    v.get("pid").unwrap().as_u64()
}

#[test]
fn empty_has_no_pid() {
    assert_eq!(RuntimeLock::empty(), RuntimeLock { pid: None });
}

#[test]
fn override_wins_over_platform_cache() {
    let p = RuntimeLock::resolve_path(Some("/tmp/d"), Some("/home/u/.cache"));
    assert_eq!(p, Some("/tmp/d/runtime.db".to_string()));
}

#[test]
fn empty_override_falls_back_to_platform_cache() {
    let p = RuntimeLock::resolve_path(Some(""), Some("/home/u/.cache"));
    assert_eq!(p, Some("/home/u/.cache/dura/runtime.db".to_string()));
    let q = RuntimeLock::resolve_path(None, Some("/home/u/.cache/"));
    assert_eq!(q, Some("/home/u/.cache/dura/runtime.db".to_string()));
}

#[test]
fn no_override_and_no_platform_cache_gives_no_path() {
    assert_eq!(RuntimeLock::resolve_path(None, None), None);
    assert_eq!(RuntimeLock::resolve_path(Some(""), None), None);
}

#[test]
fn override_with_trailing_slash() {
    let p = RuntimeLock::resolve_path(Some("/tmp/d/"), None);
    assert_eq!(p, Some("/tmp/d/runtime.db".to_string()));
}

#[test]
fn default_path_uses_override() {
    let p = RuntimeLock::default_path(Some("/tmp/cache-home"));
    assert_eq!(p, Some("/tmp/cache-home/runtime.db".to_string()));
}

#[test]
fn default_path_without_override_ends_in_state_file() {
    if let Some(p) = RuntimeLock::default_path(None) {
        assert!(p.ends_with("/dura/runtime.db"));
    }
}

#[test]
fn join_path_cases() {
    assert_eq!(dura_runtime::join_path("", "a"), "a");
    assert_eq!(dura_runtime::join_path("x", "a"), "x/a");
    assert_eq!(dura_runtime::join_path("x/", "a"), "x/a");
}

#[test]
fn load_falls_back_to_empty_when_nothing_was_read() {
    assert_eq!(RuntimeLock::load(None), RuntimeLock::empty());
}

#[test]
fn load_keeps_the_state_read() {
    let l = RuntimeLock::load(Some(RuntimeLock { pid: Some(17) }));
    assert_eq!(l, RuntimeLock { pid: Some(17) });
}

#[test]
fn to_json_exact_text() {
    assert_eq!(RuntimeLock { pid: Some(4242) }.to_json(), "{\"pid\":4242}");
    assert_eq!(RuntimeLock { pid: None }.to_json(), "{\"pid\":null}");
    assert_eq!(RuntimeLock { pid: Some(0) }.to_json(), "{\"pid\":0}");
    assert_eq!(
        RuntimeLock { pid: Some(u32::MAX) }.to_json(),
        "{\"pid\":4294967295}"
    );
}

#[test]
fn to_json_reads_back() {
    for pid in [None, Some(0u32), Some(1), Some(4242), Some(u32::MAX)] {
        let text = RuntimeLock { pid }.to_json();
        assert_eq!(parse_pid(&text), pid.map(|n| n as u64));
    }
}

#[test]
fn saving_twice_writes_the_same_contents() {
    let l = RuntimeLock { pid: Some(99) };
    let first = l.save(Some("/tmp/t"));
    let second = l.save(Some("/tmp/t"));
    assert_eq!(first, second);
    assert_eq!(
        first,
        Some(("/tmp/t/runtime.db".to_string(), "{\"pid\":99}".to_string()))
    );
}

#[test]
fn save_and_load_through_override_scenario() {
    let home = "/tmp/fresh-cache-home";
    let first = RuntimeLock::load(None);
    assert_eq!(first, RuntimeLock { pid: None });
    let mut lock = first;
    lock.pid = Some(4242);
    let (path, contents) = lock.save(Some(home)).unwrap();
    assert_eq!(path, "/tmp/fresh-cache-home/runtime.db");
    let read = parse_pid(&contents).map(|n| RuntimeLock { pid: Some(n as u32) });
    assert_eq!(RuntimeLock::load(read), RuntimeLock { pid: Some(4242) });
    assert_eq!(RuntimeLock::load(None), RuntimeLock { pid: None });
}
