use cleanx::plugin::{SafetyLevel, ScanConfig};
use cleanx::scanner::startup::{PlistFile, StartupItemsScanner};
use cleanx::scanner::StartupCategory;
use cleanx::uninstaller::AppBundle;

fn plist(body: &str) -> Vec<u8> {
    format!(
        "<?xml version=\"1.0\" encoding=\"UTF-8\"?>\n\
         <!DOCTYPE plist PUBLIC \"-//Apple//DTD PLIST 1.0//EN\" \
         \"http://www.apple.com/DTDs/PropertyList-1.0.dtd\">\n\
         <plist version=\"1.0\">{}</plist>",
        body
    )
    .into_bytes()
}

fn agent() -> Vec<u8> {
    plist(
        "<dict>\
         <key>Label</key><string>com.example.agent</string>\
         <key>ProgramArguments</key><array><string>/usr/local/bin/agent</string><string>--quiet</string></array>\
         <key>RunAtLoad</key><true/>\
         <key>Disabled</key><false/>\
         </dict>",
    )
}

#[test]
fn startup_item_of_a_property_list() {
    let item = StartupItemsScanner::parse_plist("/Library/LaunchAgents/x.plist", &agent()).unwrap();
    assert_eq!(item.label, "com.example.agent");
    assert_eq!(item.program, "/usr/local/bin/agent");
    assert_eq!(item.path, "/Library/LaunchAgents/x.plist");
    assert_eq!(item.category, StartupCategory::UserLaunchAgent);
    assert!(item.run_at_load);
    assert!(!item.disabled);
}

#[test]
fn startup_item_falls_back_to_the_file() {
    let bytes = plist("<dict><key>Program</key><string>/bin/tool</string><key>Disabled</key><true/></dict>");
    let item = StartupItemsScanner::parse_plist("/x/com.tool.helper.plist", &bytes).unwrap();
    assert_eq!(item.label, "com.tool.helper");
    assert_eq!(item.program, "/bin/tool");
    assert!(!item.run_at_load);
    assert!(item.disabled);
    let empty = StartupItemsScanner::parse_plist("/x/e.plist", &plist("<dict></dict>")).unwrap();
    assert_eq!(empty.label, "e");
    assert_eq!(empty.program, "/x/e.plist");
    // a label that is no text, arguments that are no texts
    let odd = plist(
        "<dict><key>Label</key><integer>5</integer>\
         <key>ProgramArguments</key><array><integer>1</integer></array>\
         <key>RunAtLoad</key><string>yes</string></dict>",
    );
    let item = StartupItemsScanner::parse_plist("/x/odd.plist", &odd).unwrap();
    assert_eq!(item.label, "odd");
    assert_eq!(item.program, "/x/odd.plist");
    assert!(!item.run_at_load);
}

#[test]
fn what_is_no_dictionary_is_no_startup_item() {
    assert!(StartupItemsScanner::parse_plist("/x/a.plist", b"not a plist").is_none());
    assert!(StartupItemsScanner::parse_plist("/x/a.plist", b"").is_none());
    assert!(StartupItemsScanner::parse_plist("/x/a.plist", &plist("<array><string>x</string></array>")).is_none());
    assert!(StartupItemsScanner::parse_plist("/x/a.plist", &plist("<string>x</string>")).is_none());
}

#[test]
fn directory_of_startup_items() {
    let scanner = StartupItemsScanner::with_home("/Users/u");
    let places = scanner.locations();
    assert_eq!(places.len(), 4);
    assert_eq!(places[0].path, "/Users/u/Library/LaunchAgents");
    assert_eq!(places[1].path, "/Library/LaunchAgents");
    assert_eq!(places[2].category, StartupCategory::SystemLaunchDaemon);
    assert_eq!(places[3].name, "Login Items");
    let files = vec![
        PlistFile { path: "/Library/LaunchDaemons/a.plist".to_string(), content: agent() },
        PlistFile { path: "/Library/LaunchDaemons/readme.txt".to_string(), content: agent() },
        PlistFile { path: "/Library/LaunchDaemons/broken.plist".to_string(), content: vec![1, 2, 3] },
        PlistFile { path: "/Library/LaunchDaemons/plist".to_string(), content: agent() },
        PlistFile { path: "/Library/LaunchDaemons/b.plist".to_string(), content: agent() },
    ];
    let items = scanner.scan_directory(&files, StartupCategory::SystemLaunchDaemon);
    assert_eq!(items.len(), 2);
    assert_eq!(items[0].path, "/Library/LaunchDaemons/a.plist");
    assert_eq!(items[1].path, "/Library/LaunchDaemons/b.plist");
    assert_eq!(items[0].category, StartupCategory::SystemLaunchDaemon);

    let mut config = ScanConfig::default();
    config.excluded_paths = vec!["/Library/LaunchDaemons/b.plist".to_string()];
    let found = scanner.scan(&config, &items);
    assert_eq!(found.len(), 1);
    let f = &found[0];
    assert_eq!(f.id, "startup_com_example_agent");
    assert_eq!(f.name, "com.example.agent");
    assert_eq!(f.size, 0);
    assert_eq!(f.file_count, 1);
    assert_eq!(f.safety_level, SafetyLevel::Caution);
    assert_eq!(f.metadata.get("scanner_id").unwrap(), "startup_items");
    assert_eq!(f.metadata.get("category").unwrap(), "System LaunchDaemon");
    assert_eq!(f.metadata.get("program").unwrap(), "/usr/local/bin/agent");
    assert_eq!(f.metadata.get("run_at_load").unwrap(), "true");
    assert_eq!(f.metadata.get("disabled").unwrap(), "false");
    assert_eq!(scanner.id(), "startup_items");
}

#[test]
fn startup_category_names() {
    assert_eq!(StartupCategory::UserLaunchAgent.display_name(), "User LaunchAgent");
    assert_eq!(StartupCategory::SystemLaunchAgent.display_name(), "System LaunchAgent");
    assert_eq!(StartupCategory::SystemLaunchDaemon.display_name(), "System LaunchDaemon");
    assert_eq!(StartupCategory::LoginItem.display_name(), "Login Item");
}

#[test]
fn bundle_information() {
    let bytes = plist(
        "<dict><key>CFBundleIdentifier</key><string>com.example.App</string>\
         <key>CFBundleShortVersionString</key><string>1.2.3</string></dict>",
    );
    let info = AppBundle::parse_plist(&bytes).unwrap();
    assert_eq!(info.bundle_id, "com.example.App");
    assert_eq!(info.version, "1.2.3");
    let partial = AppBundle::parse_plist(&plist("<dict><key>CFBundleIdentifier</key><string>x</string></dict>")).unwrap();
    assert_eq!((partial.bundle_id.as_str(), partial.version.as_str()), ("x", ""));
    let no_dict = AppBundle::parse_plist(&plist("<array></array>")).unwrap();
    assert_eq!((no_dict.bundle_id.as_str(), no_dict.version.as_str()), ("", ""));
    assert!(AppBundle::parse_plist(b"garbage").is_none());
}

#[test]
fn no_more_than_a_hundred_startup_items_are_handed_out() {
    let scanner = StartupItemsScanner::with_home("/Users/u");
    let files: Vec<PlistFile> = (0..130)
        .map(|i| PlistFile { path: format!("/Library/LaunchAgents/a{}.plist", i), content: agent() })
        .collect();
    let items = scanner.scan_directory(&files, StartupCategory::SystemLaunchAgent);
    assert_eq!(items.len(), 130);
    let found = scanner.scan(&ScanConfig::default(), &items);
    assert_eq!(found.len(), 100);
    // none has a size: they stay in the order of the files
    assert_eq!(found[0].path, "/Library/LaunchAgents/a0.plist");
    assert_eq!(found[99].path, "/Library/LaunchAgents/a99.plist");
}

#[test]
fn questions_to_a_root_dictionary() {
    use_root(cleanx::plists::PlistRoot::Dictionary(vec![
        ("Label".to_string(), cleanx::plists::PlistEntry::Text("x".to_string())),
        ("RunAtLoad".to_string(), cleanx::plists::PlistEntry::Flag(true)),
        (
            "ProgramArguments".to_string(),
            cleanx::plists::PlistEntry::Items(vec![Some("/bin/x".to_string()), None]),
        ),
        ("Numbers".to_string(), cleanx::plists::PlistEntry::Items(vec![None, Some("y".to_string())])),
        ("Empty".to_string(), cleanx::plists::PlistEntry::Items(Vec::new())),
        ("Date".to_string(), cleanx::plists::PlistEntry::Other),
    ]));
    let other = cleanx::plists::PlistRoot::Other;
    assert_eq!(other.kind(), cleanx::plists::PlistKind::Other);
    assert_eq!(other.text("Label"), None);
    assert_eq!(cleanx::plists::PlistRoot::Invalid.kind(), cleanx::plists::PlistKind::Invalid);
}

fn use_root(root: cleanx::plists::PlistRoot) {
    assert_eq!(root.kind(), cleanx::plists::PlistKind::Dictionary);
    assert_eq!(root.text("Label").as_deref(), Some("x"));
    assert_eq!(root.text("RunAtLoad"), None);
    assert_eq!(root.text("Missing"), None);
    assert_eq!(root.flag("RunAtLoad"), Some(true));
    assert_eq!(root.flag("Label"), None);
    assert_eq!(root.first_text("ProgramArguments").as_deref(), Some("/bin/x"));
    assert_eq!(root.first_text("Numbers"), None);
    assert_eq!(root.first_text("Empty"), None);
    assert_eq!(root.first_text("Date"), None);
    assert_eq!(root.first_text("Label"), None);
}
