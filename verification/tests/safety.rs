use cleanx::plugin::SafetyLevel;
use cleanx::safety::SafetyChecker;

#[test]
fn protected_directories() {
    let checker = SafetyChecker::new();
    for path in [
        "/System/Library/x",
        "/usr/local/bin",
        "/bin/sh",
        "/sbin/mount",
        "/etc/hosts",
        "/var/db/x",
        "/private/var/db/x",
        "/System",
        "/usr",
        "/usr/",
        "/etc//hosts",
    ] {
        assert_eq!(checker.check_path(path), SafetyLevel::Protected, "{}", path);
        assert!(!checker.is_safe_to_delete(path));
    }
}

#[test]
fn critical_patterns_anywhere_in_the_path() {
    let checker = SafetyChecker::new();
    for path in [
        "/Volumes/Disk/.Spotlight-V100/store",
        "/Volumes/Disk/.fseventsd",
        "/Volumes/Disk/.Trashes/501",
        "/Users/u/Library/Keychains/login.keychain-db",
        "/Users/u/Library/Security/x",
        "/x/Library/CoreServices/Finder.app",
    ] {
        assert_eq!(checker.check_path(path), SafetyLevel::Protected, "{}", path);
    }
}

#[test]
fn hidden_files_need_caution() {
    let checker = SafetyChecker::new();
    assert_eq!(checker.check_path("/Users/u/.config"), SafetyLevel::Caution);
    assert_eq!(checker.check_path("/Users/u/dir/.DS_Store"), SafetyLevel::Caution);
    assert_eq!(checker.check_path("/Users/u/."), SafetyLevel::Safe);
    assert!(checker.is_hidden_system("/Users/u/.zshrc"));
    assert!(!checker.is_hidden_system("/Users/u/..weird"));
    assert!(!checker.is_hidden_system("/Users/u/.hidden/file"));
    assert!(!checker.is_hidden_system("/Users/u/.."));
    assert!(!checker.is_hidden_system("/"));
    assert!(checker.is_safe_to_delete("/Users/u/.config"));
}

#[test]
fn everything_else_is_safe() {
    let checker = SafetyChecker::default();
    for path in [
        "/Users/u/Library/Caches/com.app",
        "/tmp/x",
        "relative/path",
        "",
        "/var/log/x",
        "/Users/u/usr",
        // the text begins like a protected directory, the path is not under it
        "/usrdata/cache",
        "/usrx",
        "/Systems/x",
        "/etcetera",
        "/var/dbx",
        "usr/lib",
    ] {
        assert_eq!(checker.check_path(path), SafetyLevel::Safe, "{}", path);
        assert!(checker.is_safe_to_delete(path));
    }
}

#[test]
fn running_applications_by_name() {
    let checker = SafetyChecker::new();
    let running = vec!["Finder".to_string(), "Google Chrome".to_string(), "Terminal".to_string()];
    assert!(checker.is_app_running(&running, "chrome"));
    assert!(checker.is_app_running(&running, "FINDER"));
    assert!(checker.is_app_running(&running, "Term"));
    assert!(checker.is_app_running(&running, ""));
    assert!(!checker.is_app_running(&running, "Safari"));
    assert!(!checker.is_app_running(&Vec::new(), "Finder"));
    assert!(!checker.is_app_running(&Vec::new(), ""));
}

#[test]
fn levels_that_allow_deletion() {
    assert!(SafetyLevel::Safe.is_deletable());
    assert!(SafetyLevel::Caution.is_deletable());
    assert!(!SafetyLevel::Protected.is_deletable());
}

#[test]
fn root_of_the_scanners() {
    assert_eq!(cleanx::scanner::root_for(Some("/Users/u".to_string())), "/Users/u");
    assert_eq!(cleanx::scanner::root_for(Some(String::new())), "");
    assert_eq!(cleanx::scanner::root_for(None), "/");
}

#[test]
fn running_applications_as_the_system_lists_them() {
    let checker = SafetyChecker::new();
    assert_eq!(
        checker.get_running_apps(Some("Finder, Google Chrome,  Terminal \n")),
        vec!["Finder", "Google Chrome", "Terminal"]
    );
    assert_eq!(checker.get_running_apps(Some("a,b, c, ")), vec!["a,b", "c", ""]);
    assert_eq!(checker.get_running_apps(Some(", , ")), vec!["", "", ""]);
    assert_eq!(checker.get_running_apps(Some("One")), vec!["One"]);
    assert_eq!(checker.get_running_apps(Some("")), vec![""]);
    assert!(checker.get_running_apps(None).is_empty());
    let running = checker.get_running_apps(Some("Finder, Google Chrome\n"));
    assert!(checker.is_app_running(&running, "chrome"));
}
