use botserver::version_string;
use botserver::ComponentSource;
use botserver::ComponentStatus;
use botserver::ComponentVersion;
use botserver::StrMap;
use botserver::VersionRegistry;

#[test]
fn test_registry_creation() {
    let registry = VersionRegistry::new();
    assert!(!registry.core_version.is_empty());
    assert!(registry.components.contains_key("botserver"));
}

#[test]
fn test_component_registration() {
    let mut registry = VersionRegistry::new();
    registry.register_component(ComponentVersion {
        name: "test".to_string(),
        version: "1.0.0".to_string(),
        latest_version: None,
        update_available: false,
        status: ComponentStatus::Running,
        last_checked_secs: None,
        source: ComponentSource::Builtin,
        metadata: StrMap::new(),
    });
    assert!(registry.get_component("test").is_some());
}

#[test]
fn test_status_display() {
    assert_eq!(ComponentStatus::Running.as_str(), "[OK] Running");
    assert_eq!(ComponentStatus::Error.as_str(), "[ERR] Error");
}

#[test]
fn test_version_string() {
    let vs = version_string();
    assert!(!vs.is_empty());
    assert!(vs.contains('v'));
}

#[test]
fn test_source_display() {
    assert_eq!(ComponentSource::Builtin.as_str(), "Built-in");
    assert_eq!(ComponentSource::Docker.as_str(), "Docker");
}

#[test]
fn test_update_status() {
    let mut registry = VersionRegistry::new();
    registry.update_status("botserver", ComponentStatus::Stopped);
    let component = registry.get_component("botserver");
    assert!(
        component.is_some(),
        "botserver component should exist in registry"
    );
    assert_eq!(component.map(|c| c.status), Some(ComponentStatus::Stopped));
}

#[test]
fn test_summary() {
    let registry = VersionRegistry::new();
    let summary = registry.summary();
    assert!(summary.contains("components running"));
}

#[test]
fn test_summary_exact() {
    let registry = VersionRegistry::new();
    assert_eq!(
        registry.summary(),
        "botserver v0.1.0 | 3/3 components running | 0 updates available"
    );
    let mut stopped = VersionRegistry::new();
    stopped.update_status("llm", ComponentStatus::Stopped);
    assert_eq!(
        stopped.summary(),
        "botserver v0.1.0 | 2/3 components running | 0 updates available"
    );
}

#[test]
fn test_update_version() {
    let mut registry = VersionRegistry::new();
    registry.update_version("basic", "2.0.0".to_string());
    let component = registry.get_component("basic").expect("basic stays registered");
    assert_eq!(component.version, "2.0.0");
    assert!(component.last_checked_secs.is_some());
    registry.update_version("missing", "9.9.9".to_string());
    assert!(registry.get_component("missing").is_none());
}

#[test]
fn test_available_updates() {
    let mut registry = VersionRegistry::new();
    assert_eq!(registry.get_available_updates().len(), 0);
    registry.register_component(ComponentVersion {
        name: "stale".to_string(),
        version: "1.0.0".to_string(),
        latest_version: Some("1.1.0".to_string()),
        update_available: true,
        status: ComponentStatus::Running,
        last_checked_secs: None,
        source: ComponentSource::Docker,
        metadata: StrMap::new(),
    });
    let updates = registry.get_available_updates();
    assert_eq!(updates.len(), 1);
    assert_eq!(updates[0].name, "stale");
}

#[test]
fn test_get_botserver_version() {
    assert_eq!(botserver::get_botserver_version(), "0.1.0");
    assert_eq!(version_string(), "botserver v0.1.0");
}

#[test]
fn test_strmap_basics() {
    let mut map: StrMap<u64> = StrMap::new();
    assert_eq!(map.len(), 0);
    map.insert("a".to_string(), 1);
    map.insert("b".to_string(), 2);
    map.insert("a".to_string(), 3);
    assert_eq!(map.len(), 2);
    assert_eq!(map.get("a"), Some(&3));
    assert_eq!(map.get("b"), Some(&2));
    assert_eq!(map.get("c"), None);
    assert_eq!(map.take("a"), Some(3));
    assert_eq!(map.take("a"), None);
    assert_eq!(map.len(), 1);
}
