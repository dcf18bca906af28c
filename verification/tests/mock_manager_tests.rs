use reponere::manager::PackageManagerApi;
use reponere::mock::MockPackageManager;

#[test]
fn test_install_package() {
    let mut manager = MockPackageManager::new().with_available("foo", "1.0.0");
    assert!(manager.get_installed_version("foo").unwrap().is_none());

    manager.install("foo").unwrap();
    let version = manager.get_installed_version("foo").unwrap();
    assert_eq!(version, Some("1.0.0".to_string())); // returns available version
}

#[test]
fn test_uninstall_package() {
    let mut manager = MockPackageManager::new()
        .with_available("bar", "2.3.4")
        .with_installed("bar", "2.3.4");

    assert_eq!(
        manager.get_installed_version("bar").unwrap(),
        Some("2.3.4".to_string())
    );

    manager.uninstall("bar").unwrap();
    assert!(manager.get_installed_version("bar").unwrap().is_none());
}

#[test]
fn mock_manager_tests_test_get_available_version() {
    let manager = MockPackageManager::new().with_available("baz", "0.9.1");

    let version = manager.get_available_version("baz").unwrap();
    assert_eq!(version, Some("0.9.1".to_string()));

    let missing_version = manager.get_available_version("nonexistent").unwrap();
    assert!(missing_version.is_none());
}

#[test]
fn test_with_installed_and_available_chain() {
    let manager = MockPackageManager::new()
        .with_installed("foo", "1.2.3")
        .with_available("bar", "4.5.6");

    // Installed package returns available version
    assert_eq!(
        manager.get_installed_version("foo").unwrap(),
        Some("1.2.3".to_string())
    );

    // Check available
    assert_eq!(
        manager.get_available_version("bar").unwrap(),
        Some("4.5.6".to_string())
    );
}

#[test]
fn test_install_then_uninstall() {
    let mut manager = MockPackageManager::new().with_available("qux", "5.6.7");

    manager.install("qux").unwrap();
    assert_eq!(
        manager.get_installed_version("qux").unwrap(),
        Some("5.6.7".to_string())
    );

    manager.uninstall("qux").unwrap();
    assert!(manager.get_installed_version("qux").unwrap().is_none());
}

#[test]
fn installing_what_is_not_on_offer_succeeds_and_installs_nothing() {
    let mut manager = MockPackageManager::new().with_installed("kept", "1.0");
    assert!(manager.install("ghost").is_ok());
    assert!(manager.get_installed_version("ghost").unwrap().is_none());
    assert_eq!(
        manager.get_installed_version("kept").unwrap(),
        Some("1.0".to_string())
    );
}

#[test]
fn installing_replaces_the_installed_version_by_the_one_on_offer() {
    let mut manager = MockPackageManager::new()
        .with_installed("bar", "2.0.0")
        .with_available("bar", "2.3.4");
    manager.install("bar").unwrap();
    assert_eq!(
        manager.get_installed_version("bar").unwrap(),
        Some("2.3.4".to_string())
    );
    assert_eq!(
        manager.get_available_version("bar").unwrap(),
        Some("2.3.4".to_string())
    );
}

#[test]
fn uninstalling_leaves_the_others_and_the_offer() {
    let mut manager = MockPackageManager::new()
        .with_installed("a", "1")
        .with_installed("b", "2")
        .with_available("a", "1");
    manager.uninstall("a").unwrap();
    assert!(manager.get_installed_version("a").unwrap().is_none());
    assert_eq!(manager.get_installed_version("b").unwrap(), Some("2".to_string()));
    assert_eq!(manager.get_available_version("a").unwrap(), Some("1".to_string()));
    assert!(manager.uninstall("never-there").is_ok());
}

#[test]
fn a_later_entry_replaces_an_earlier_one() {
    let manager = MockPackageManager::new()
        .with_installed("a", "1")
        .with_installed("a", "2")
        .with_available("a", "3")
        .with_available("a", "4");
    assert_eq!(manager.get_installed_version("a").unwrap(), Some("2".to_string()));
    assert_eq!(manager.get_available_version("a").unwrap(), Some("4".to_string()));
}
