use moon_core::deno_lock::{load_lockfile_dependencies, DenoLock};
use moon_core::strmap::StringMap;

#[test]
fn maps_each_remote_entry_to_a_single_version() {
    let mut remote: StringMap<String> = StringMap::new();
    remote.insert("https://deno.land/std/mod.ts".to_string(), "sha-aaa".to_string());
    remote.insert("https://deno.land/x/lib.ts".to_string(), "sha-bbb".to_string());
    let lock = DenoLock { remote, path: "deno.lock".to_string() };

    let deps = load_lockfile_dependencies(Some(&lock));
    assert_eq!(deps.len(), 2);
    assert_eq!(
        deps.get(&"https://deno.land/std/mod.ts".to_string()),
        Some(&vec!["sha-aaa".to_string()]),
    );
    assert_eq!(
        deps.get(&"https://deno.land/x/lib.ts".to_string()),
        Some(&vec!["sha-bbb".to_string()]),
    );
}

#[test]
fn absent_lockfile_yields_no_dependencies() {
    let deps = load_lockfile_dependencies(None);
    assert_eq!(deps.len(), 0);
}
