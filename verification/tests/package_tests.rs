use moon_core::package::PackageJson;
use moon_core::strmap::StringMap;

fn empty_manifest() -> PackageJson {
    PackageJson {
        author: None,
        bin: None,
        browser: None,
        bugs: None,
        bundled_dependencies: None,
        contributors: None,
        cpu: None,
        dependencies: None,
        description: None,
        dev_dependencies: None,
        directories: None,
        engines: None,
        files: None,
        funding: None,
        homepage: None,
        keywords: None,
        license: None,
        main: None,
        man: None,
        module: None,
        name: None,
        optional_dependencies: None,
        os: None,
        overrides: None,
        peer_dependencies: None,
        peer_dependencies_meta: None,
        private: None,
        repository: None,
        scripts: None,
        type_of: None,
        version: None,
        workspaces: None,
        package_manager: None,
        pnpm: None,
        dependencies_meta: None,
        language_name: None,
        prefer_unplugged: None,
        resolutions: None,
        path: String::new(),
    }
}

#[test]
fn adds_a_new_dependency() {
    let mut pkg = empty_manifest();
    assert!(pkg.add_dependency("react".to_string(), "^18.0.0".to_string(), false));
    let deps = pkg.dependencies.as_ref().unwrap();
    assert_eq!(deps.get(&"react".to_string()), Some(&"^18.0.0".to_string()));
    assert_eq!(deps.len(), 1);
}

#[test]
fn if_missing_keeps_an_existing_dependency() {
    let mut pkg = empty_manifest();
    assert!(pkg.add_dependency("react".to_string(), "^17.0.0".to_string(), false));
    assert!(!pkg.add_dependency("react".to_string(), "^18.0.0".to_string(), true));
    let deps = pkg.dependencies.as_ref().unwrap();
    assert_eq!(deps.get(&"react".to_string()), Some(&"^17.0.0".to_string()));
}

#[test]
fn without_if_missing_the_range_is_replaced() {
    let mut pkg = empty_manifest();
    assert!(pkg.add_dependency("react".to_string(), "^17.0.0".to_string(), false));
    assert!(pkg.add_dependency("react".to_string(), "^18.0.0".to_string(), false));
    let deps = pkg.dependencies.as_ref().unwrap();
    assert_eq!(deps.get(&"react".to_string()), Some(&"^18.0.0".to_string()));
    assert_eq!(deps.len(), 1);
}

#[test]
fn adds_an_engine_when_absent() {
    let mut pkg = empty_manifest();
    assert!(pkg.add_engine("node", ">=18"));
    let engines = pkg.engines.as_ref().unwrap();
    assert_eq!(engines.get(&"node".to_string()), Some(&">=18".to_string()));
}

#[test]
fn same_engine_range_changes_nothing() {
    let mut pkg = empty_manifest();
    assert!(pkg.add_engine("node", ">=18"));
    assert!(!pkg.add_engine("node", ">=18"));
    assert_eq!(pkg.engines.as_ref().unwrap().len(), 1);
}

#[test]
fn different_engine_range_replaces() {
    let mut pkg = empty_manifest();
    assert!(pkg.add_engine("node", ">=16"));
    assert!(pkg.add_engine("node", ">=18"));
    let engines = pkg.engines.as_ref().unwrap();
    assert_eq!(engines.get(&"node".to_string()), Some(&">=18".to_string()));
    assert_eq!(engines.len(), 1);
}

#[test]
fn string_map_basics() {
    let mut m: StringMap<String> = StringMap::new();
    assert_eq!(m.len(), 0);
    assert!(!m.contains_key(&"a".to_string()));
    m.insert("a".to_string(), "1".to_string());
    m.insert("b".to_string(), "2".to_string());
    m.insert("a".to_string(), "3".to_string());
    assert_eq!(m.len(), 2);
    assert_eq!(m.get(&"a".to_string()), Some(&"3".to_string()));
    assert_eq!(m.get(&"b".to_string()), Some(&"2".to_string()));
    assert_eq!(m.get(&"c".to_string()), None);
    let copy = m.duplicate();
    assert_eq!(copy.get(&"a".to_string()), Some(&"3".to_string()));
    assert_eq!(copy.len(), 2);
}
