use reponere::build_dependency_guard::BuildDependencyGuard;
use reponere::dependency_handler::{
    check_version, decide_from_available, decide_from_installed, record_install, DependencyError,
    DependencyHandler,
};
use reponere::manager::{PackageManagerApi, PackageManagerError};
use reponere::mock::MockPackageManager;
use reponere::package::{Dependencies, Dependency};

fn make_dependency(name: &str, version_req: Option<&str>) -> Dependency {
    Dependency {
        name: name.to_string(),
        version_req: version_req.map(|s| s.to_string()),
    }
}

/// A manager that offers version 1.0 of everything, has nothing installed,
/// and fails to install the packages it is told to fail on.
struct Unreliable {
    failing: Vec<&'static str>,
    installed: Vec<String>,
    broken_queries: bool,
}

impl PackageManagerApi for Unreliable {
    fn install(&mut self, package: &str) -> Result<(), PackageManagerError> {
        if self.failing.contains(&package) {
            Err(PackageManagerError::FailedInstall)
        } else {
            self.installed.push(package.to_string());
            Ok(())
        }
    }

    fn uninstall(&mut self, package: &str) -> Result<(), PackageManagerError> {
        if self.failing.contains(&package) {
            return Err(PackageManagerError::FailedUninstall);
        }
        self.installed.retain(|name| name != package);
        Ok(())
    }

    fn get_installed_version(&self, package: &str) -> Result<Option<String>, PackageManagerError> {
        if self.broken_queries {
            return Err(PackageManagerError::FailedGetVersion);
        }
        if self.installed.iter().any(|name| name == package) {
            Ok(Some("1.0".to_string()))
        } else {
            Ok(None)
        }
    }

    fn get_available_version(&self, _package: &str) -> Result<Option<String>, PackageManagerError> {
        Ok(Some("1.0".to_string()))
    }
}

#[test]
fn test_install_runtime_dependencies_when_not_installed() {
    let mut mock_pm = MockPackageManager::new().with_available("foo", "1.0.0");
    let deps = Dependencies {
        runtime: vec![make_dependency("foo", None)],
        build: vec![],
    };
    let mut handler = DependencyHandler::new(&mut mock_pm, deps);

    let mut errors = Vec::new();
    handler.install_runtime_dependencies(&mut errors);

    assert!(errors.is_empty());
    // install method inserts "foo", but get_installed_version expects "foo@version"
    let installed_version = mock_pm.get_installed_version("foo").unwrap();
    assert_eq!(installed_version, Some("1.0.0".to_string()));
}

#[test]
fn test_install_build_dependencies_with_version_check() {
    let mut mock_pm = MockPackageManager::new()
        .with_available("bar", "2.3.4")
        .with_installed("bar", "2.0.0"); // older version
    let deps = Dependencies {
        runtime: vec![],
        build: vec![make_dependency("bar", Some(">=2.1.0"))],
    };
    let mut handler = DependencyHandler::new(&mut mock_pm, deps);

    let mut errors = Vec::new();
    let installed = handler.install_build_dependencies(&mut errors);

    assert_eq!(installed, vec!["bar".to_string()]);
    assert!(errors.is_empty());

    let installed_version = mock_pm.get_installed_version("bar").unwrap();
    assert_eq!(installed_version, Some("2.3.4".to_string()));
}

#[test]
fn test_dependency_not_available_triggers_error() {
    let mut mock_pm = MockPackageManager::new(); // no available versions
    let deps = Dependencies {
        runtime: vec![make_dependency("baz", Some(">=1.0.0"))],
        build: vec![],
    };
    let mut handler = DependencyHandler::new(&mut mock_pm, deps);

    let mut errors = Vec::new();
    handler.install_runtime_dependencies(&mut errors);

    assert_eq!(errors.len(), 1);
    match &errors[0] {
        DependencyError::AvailableVersionCheckFailed { dependency, .. } => {
            assert_eq!(dependency, "baz");
        }
        _ => panic!("Expected AvailableVersionCheckFailed"),
    }
}

#[test]
fn test_dependency_already_installed_satisfying_version() {
    let mut mock_pm = MockPackageManager::new().with_installed("foo", "1.2.3");
    let deps = Dependencies {
        runtime: vec![make_dependency("foo", Some(">=1.0.0"))],
        build: vec![],
    };
    let mut handler = DependencyHandler::new(&mut mock_pm, deps);

    let mut errors = Vec::new();
    handler.install_runtime_dependencies(&mut errors);

    assert!(errors.is_empty());
    let installed_version = mock_pm.get_installed_version("foo").unwrap();
    assert_eq!(installed_version, Some("1.2.3".to_string()));
}

#[test]
fn dependency_handler_tests_test_build_dependency_guard_uninstalls_on_drop() {
    let mut mock_pm = MockPackageManager::new().with_installed("temp", "0.1.0");

    let guard = BuildDependencyGuard {
        package_manager: &mut mock_pm,
        installed: vec!["temp@0.1.0".to_string()],
    };
    guard.release();

    let installed_version = mock_pm.get_installed_version("temp@0.1.0").unwrap();
    assert!(installed_version.is_none());
}

#[test]
fn one_build_dependency_installs_and_one_fails() {
    let mut pm = Unreliable { failing: vec!["bad"], installed: vec![], broken_queries: false };
    let deps = Dependencies {
        runtime: vec![],
        build: vec![make_dependency("good", None), make_dependency("bad", None)],
    };
    let mut handler = DependencyHandler::new(&mut pm, deps);

    let mut errors = Vec::new();
    let installed = handler.install_build_dependencies(&mut errors);

    assert_eq!(installed, vec!["good".to_string()]);
    assert_eq!(errors.len(), 1);
    match &errors[0] {
        DependencyError::InstallFailed { dependency, source } => {
            assert_eq!(dependency, "bad");
            assert_eq!(*source, PackageManagerError::FailedInstall);
        }
        _ => panic!("Expected InstallFailed"),
    }
    assert_eq!(pm.installed, vec!["good".to_string()]);
}

#[test]
fn a_failure_does_not_cut_the_batch_short() {
    let mut pm = Unreliable { failing: vec!["a", "c"], installed: vec![], broken_queries: false };
    let deps = Dependencies {
        runtime: vec![
            make_dependency("a", None),
            make_dependency("b", None),
            make_dependency("c", Some("<2")),
            make_dependency("d", Some(">5")),
            make_dependency("e", None),
        ],
        build: vec![],
    };
    let mut handler = DependencyHandler::new(&mut pm, deps);

    let mut errors = vec![DependencyError::InstallFailed {
        dependency: "earlier".to_string(),
        source: PackageManagerError::FailedInstall,
    }];
    handler.install_runtime_dependencies(&mut errors);

    assert_eq!(errors.len(), 3);
    let names: Vec<&str> = errors
        .iter()
        .map(|e| match e {
            DependencyError::InstallFailed { dependency, .. } => dependency.as_str(),
            _ => panic!("Expected InstallFailed"),
        })
        .collect();
    assert_eq!(names, vec!["earlier", "a", "c"]);
    assert_eq!(pm.installed, vec!["b".to_string(), "e".to_string()]);
}

#[test]
fn a_failed_query_is_recorded_and_nothing_is_installed() {
    let mut pm = Unreliable { failing: vec![], installed: vec![], broken_queries: true };
    let deps = Dependencies { runtime: vec![], build: vec![make_dependency("x", None)] };
    let mut handler = DependencyHandler::new(&mut pm, deps);

    let mut errors = Vec::new();
    let installed = handler.install_build_dependencies(&mut errors);

    assert!(installed.is_empty());
    assert_eq!(errors.len(), 1);
    match &errors[0] {
        DependencyError::InstalledVersionCheckFailed { dependency, source } => {
            assert_eq!(dependency, "x");
            assert_eq!(*source, PackageManagerError::FailedGetVersion);
        }
        _ => panic!("Expected InstalledVersionCheckFailed"),
    }
    assert!(pm.installed.is_empty());
}

#[test]
fn runtime_and_build_lists_are_kept_apart() {
    let mut mock_pm = MockPackageManager::new()
        .with_available("run", "1.0")
        .with_available("build", "1.0");
    let deps = Dependencies {
        runtime: vec![make_dependency("run", None)],
        build: vec![make_dependency("build", None)],
    };
    let mut handler = DependencyHandler::new(&mut mock_pm, deps);

    let mut errors = Vec::new();
    handler.install_runtime_dependencies(&mut errors);
    let installed = handler.install_build_dependencies(&mut errors);

    assert!(errors.is_empty());
    assert_eq!(installed, vec!["build".to_string()]);
    assert_eq!(mock_pm.get_installed_version("run").unwrap(), Some("1.0".to_string()));
    assert_eq!(mock_pm.get_installed_version("build").unwrap(), Some("1.0".to_string()));
}

#[test]
fn not_installed_and_the_offer_does_not_fit() {
    let mut mock_pm = MockPackageManager::new().with_available("foo", "1.0.0");
    let deps = Dependencies {
        runtime: vec![],
        build: vec![make_dependency("foo", Some(">=2.0.0"))],
    };
    let mut handler = DependencyHandler::new(&mut mock_pm, deps);

    let mut errors = Vec::new();
    let installed = handler.install_build_dependencies(&mut errors);

    assert!(installed.is_empty());
    assert!(errors.is_empty());
    assert!(mock_pm.get_installed_version("foo").unwrap().is_none());
}

#[test]
fn already_installed_at_a_satisfying_version() {
    let dep = make_dependency("foo", Some(">=1.0.0"));
    let mut errors = Vec::new();
    let decided = decide_from_installed(&dep, Ok(Some("1.2.3".to_string())), &mut errors);
    assert_eq!(decided, Some(false));
    assert!(errors.is_empty());
}

#[test]
fn installed_at_a_version_that_does_not_satisfy() {
    let dep = make_dependency("foo", Some(">=2.0.0"));
    let mut errors = Vec::new();
    let decided = decide_from_installed(&dep, Ok(Some("1.2.3".to_string())), &mut errors);
    assert_eq!(decided, Some(true));
    assert!(errors.is_empty());
    let decided = decide_from_installed(&dep, Ok(Some("garbage".to_string())), &mut errors);
    assert_eq!(decided, Some(true));
    assert!(errors.is_empty());
}

#[test]
fn not_installed_asks_for_the_offer() {
    let dep = make_dependency("foo", None);
    let mut errors = Vec::new();
    assert_eq!(decide_from_installed(&dep, Ok(None), &mut errors), None);
    assert!(errors.is_empty());
}

#[test]
fn failed_installed_query_decides_against_installing() {
    let dep = make_dependency("foo", None);
    let mut errors = Vec::new();
    let decided =
        decide_from_installed(&dep, Err(PackageManagerError::FailedGetVersion), &mut errors);
    assert_eq!(decided, Some(false));
    assert_eq!(errors.len(), 1);
    match &errors[0] {
        DependencyError::InstalledVersionCheckFailed { dependency, source } => {
            assert_eq!(dependency, "foo");
            assert_eq!(*source, PackageManagerError::FailedGetVersion);
        }
        _ => panic!("Expected InstalledVersionCheckFailed"),
    }
}

#[test]
fn neither_installed_nor_available() {
    let dep = make_dependency("baz", Some(">=1.0.0"));
    let mut errors = Vec::new();
    assert_eq!(decide_from_installed(&dep, Ok(None), &mut errors), None);
    assert!(!decide_from_available(&dep, Ok(None), &mut errors));
    assert_eq!(errors.len(), 1);
    match &errors[0] {
        DependencyError::AvailableVersionCheckFailed { dependency, source } => {
            assert_eq!(dependency, "baz");
            assert_eq!(*source, PackageManagerError::NoVersionFound);
        }
        _ => panic!("Expected AvailableVersionCheckFailed"),
    }
}

#[test]
fn the_offer_decides_for_what_is_not_installed() {
    let dep = make_dependency("foo", Some(">=1.0.0"));
    let mut errors = Vec::new();
    assert!(decide_from_available(&dep, Ok(Some("1.0.0".to_string())), &mut errors));
    assert!(!decide_from_available(&dep, Ok(Some("0.9".to_string())), &mut errors));
    assert!(errors.is_empty());
    let any = make_dependency("foo", None);
    assert!(decide_from_available(&any, Ok(Some("whatever".to_string())), &mut errors));
    assert!(errors.is_empty());
}

#[test]
fn failed_available_query_is_recorded_with_its_cause() {
    let dep = make_dependency("foo", None);
    let mut errors = Vec::new();
    assert!(!decide_from_available(&dep, Err(PackageManagerError::FailedInstall), &mut errors));
    assert_eq!(errors.len(), 1);
    match &errors[0] {
        DependencyError::AvailableVersionCheckFailed { dependency, source } => {
            assert_eq!(dependency, "foo");
            assert_eq!(*source, PackageManagerError::FailedInstall);
        }
        _ => panic!("Expected AvailableVersionCheckFailed"),
    }
}

#[test]
fn record_install_notes_failures_only() {
    let dep = make_dependency("foo", None);
    let mut errors = Vec::new();
    assert!(record_install(&dep, Ok(()), &mut errors));
    assert!(errors.is_empty());
    assert!(!record_install(&dep, Err(PackageManagerError::FailedInstall), &mut errors));
    assert_eq!(errors.len(), 1);
    match &errors[0] {
        DependencyError::InstallFailed { dependency, source } => {
            assert_eq!(dependency, "foo");
            assert_eq!(*source, PackageManagerError::FailedInstall);
        }
        _ => panic!("Expected InstallFailed"),
    }
}

#[test]
fn check_version_without_requirement_accepts_everything() {
    assert!(check_version(&None, "1.0"));
    assert!(check_version(&None, "not-a-version"));
    assert!(check_version(&Some(">=1.0".to_string()), "1.0"));
    assert!(!check_version(&Some(">=1.0".to_string()), "0.9"));
    assert!(!check_version(&Some(">=1.0".to_string()), "not-a-version"));
}
