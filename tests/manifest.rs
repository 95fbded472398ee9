use moosync_host::manifest::{
    find_extension_manifests, is_wasm_entry, retain_existing, ExtensionManifest,
    ManifestCandidate, FsChild, FsEntry,
};
use moosync_host::placeholders::{expand_placeholders, lookup_var};
use moosync_host::registry::{Extension, ExtensionHandlerInner};

fn entry(path: &str, name: &str, is_dir: bool, children: Vec<FsChild>) -> FsEntry {
    FsEntry {
        path: path.to_string(),
        file_name: name.to_string(),
        is_file: !is_dir,
        is_dir,
        children,
    }
}

fn child(path: &str, name: &str, is_file: bool) -> FsChild {
    FsChild { path: path.to_string(), file_name: name.to_string(), is_file }
}

fn manifest(name: &str, entry: &str) -> ExtensionManifest {
    ExtensionManifest {
        name: name.to_string(),
        display_name: name.to_uppercase(),
        version: "1.0.0".to_string(),
        author: None,
        icon: "icon.png".to_string(),
        extension_entry: entry.to_string(),
        permissions: None,
    }
}

fn cand(name: &str, entry: &str, exists: bool) -> ManifestCandidate {
    ManifestCandidate { manifest: manifest(name, entry), entry_exists: exists }
}

#[test]
fn manifests_are_found_at_top_and_one_level_down() {
    let listing = vec![
        entry("/ext/package.json", "package.json", false, vec![]),
        entry(
            "/ext/a",
            "a",
            true,
            vec![
                child("/ext/a/package.json", "package.json", true),
                child("/ext/a/nested", "nested", false),
                child("/ext/a/other.json", "other.json", true),
            ],
        ),
        entry("/ext/readme.md", "readme.md", false, vec![]),
        entry("/ext/b", "b", true, vec![child("/ext/b/package.json", "package.json", false)]),
    ];
    assert_eq!(
        find_extension_manifests(&listing),
        vec!["/ext/package.json".to_string(), "/ext/a/package.json".to_string()]
    );
}

#[test]
fn wasm_entries_are_recognised() {
    assert!(is_wasm_entry("/ext/a/ext.wasm"));
    assert!(is_wasm_entry("x.wasm"));
    assert!(!is_wasm_entry("/ext/a/.wasm"));
    assert!(!is_wasm_entry("/ext/a/ext.js"));
    assert!(!is_wasm_entry("/ext/a/ext.wasm.bak"));
    assert!(!is_wasm_entry(".wasm"));
}

#[test]
fn scan_accepts_only_existing_wasm_entries_once() {
    let mut reg: ExtensionHandlerInner<u32> =
        ExtensionHandlerInner::new("/ext".to_string(), "/tmp".to_string());
    reg.insert_extension(Extension {
        plugin: 1,
        package_name: "loaded".to_string(),
        name: "Loaded".to_string(),
        icon: String::new(),
        author: None,
        version: "1".to_string(),
        path: "/ext/loaded/ext.wasm".to_string(),
    });
    let accepted = reg.find_extensions(vec![
        cand("good", "/ext/good/ext.wasm", true),
        cand("missing", "/ext/missing/ext.wasm", false),
        cand("script", "/ext/script/index.js", true),
        cand("loaded", "/ext/loaded/ext.wasm", true),
        cand("good", "/ext/good2/ext.wasm", true),
        cand("other", "/ext/other/ext.wasm", true),
    ]);
    let names: Vec<&str> = accepted.iter().map(|m| m.name.as_str()).collect();
    assert_eq!(names, vec!["good", "other"]);
    assert_eq!(accepted[0].extension_entry, "/ext/good/ext.wasm");
}

#[test]
fn placeholders_expand_from_variables() {
    let vars = vec![
        ("HOME".to_string(), "/home/u".to_string()),
        ("XDG_RUNTIME_DIR".to_string(), "/run/user/1".to_string()),
    ];
    assert_eq!(expand_placeholders("{HOME}/sock", &vars), "/home/u/sock");
    assert_eq!(expand_placeholders("{XDG_RUNTIME_DIR}/{HOME}", &vars), "/run/user/1//home/u");
    assert_eq!(expand_placeholders("{UNSET}/x", &vars), "/x");
    assert_eq!(expand_placeholders("{home}/x", &vars), "{home}/x");
    assert_eq!(expand_placeholders("{1A}", &vars), "{1A}");
    assert_eq!(expand_placeholders("{HOME", &vars), "{HOME");
    assert_eq!(expand_placeholders("{{HOME}}", &vars), "{/home/u}");
    assert_eq!(expand_placeholders("", &vars), "");
}

#[test]
fn first_definition_of_a_variable_wins() {
    let vars = vec![("A".to_string(), "1".to_string()), ("A".to_string(), "2".to_string())];
    assert_eq!(lookup_var(&vars, "A"), "1");
    assert_eq!(lookup_var(&vars, "B"), "");
}

#[test]
fn grants_of_missing_paths_are_dropped() {
    let paths = vec![
        ("/a".to_string(), "/x".to_string()),
        ("/b".to_string(), "/y".to_string()),
        ("/c".to_string(), "/z".to_string()),
    ];
    let kept = retain_existing(paths, &vec![true, false, true]);
    assert_eq!(kept, vec![("/a".to_string(), "/x".to_string()), ("/c".to_string(), "/z".to_string())]);
}
