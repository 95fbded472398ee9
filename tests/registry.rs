use moosync_host::registry::{
    Extension, ExtensionHandlerInner, PackageNameArgs, RunnerCommand, RunnerCommandResp,
};

fn ext(name: &str) -> Extension<u32> {
    Extension {
        plugin: 7,
        package_name: name.to_string(),
        name: format!("{} display", name),
        icon: format!("{}.png", name),
        author: Some("someone".to_string()),
        version: "2.0.0".to_string(),
        path: format!("/ext/{}/ext.wasm", name),
    }
}

fn registry() -> ExtensionHandlerInner<u32> {
    let mut reg = ExtensionHandlerInner::new("/ext".to_string(), "/tmp".to_string());
    assert!(reg.insert_extension(ext("a")));
    assert!(reg.insert_extension(ext("b")));
    reg
}

fn args(name: &str) -> PackageNameArgs {
    PackageNameArgs { package_name: name.to_string() }
}

#[test]
fn a_package_is_loaded_once() {
    let mut reg = registry();
    assert!(!reg.insert_extension(ext("a")));
    assert_eq!(reg.get_extensions(&String::new()).len(), 2);
    assert!(reg.contains(&"a".to_string()));
    assert!(!reg.contains(&"c".to_string()));
    assert_eq!(reg.extensions_path(), "/ext");
}

#[test]
fn lookup_by_name_or_all() {
    let reg = registry();
    let all = reg.get_extensions(&String::new());
    assert_eq!(all[0].package_name, "a");
    assert_eq!(all[1].package_name, "b");
    let one = reg.get_extensions(&"b".to_string());
    assert_eq!(one.len(), 1);
    assert_eq!(one[0].name, "b display");
    assert!(reg.get_extensions(&"zzz".to_string()).is_empty());
}

#[test]
fn removal_drops_only_that_package() {
    let mut reg = registry();
    reg.remove_extension(&"a".to_string());
    assert!(!reg.contains(&"a".to_string()));
    assert!(reg.contains(&"b".to_string()));
    reg.remove_extension(&"nothing".to_string());
    assert_eq!(reg.get_extensions(&String::new()).len(), 1);
}

#[test]
fn runner_lists_installed_extensions() {
    let mut reg = registry();
    let step = reg.handle_runner_command(RunnerCommand::GetInstalledExtensions);
    assert!(!step.rescan);
    match step.reply {
        RunnerCommandResp::ExtensionList(l) => {
            assert_eq!(l.len(), 2);
            assert_eq!(l[0].package_name, "a");
            assert_eq!(l[0].entry, "/ext/a/ext.wasm");
            assert_eq!(l[0].extension_path, "/ext/a/ext.wasm");
            assert_eq!(l[0].extension_icon.as_deref(), Some("a.png"));
            assert_eq!(l[0].author.as_deref(), Some("someone"));
            assert!(l[0].has_started);
            assert!(l[0].desc.is_none());
            assert!(l[0].preferences.is_empty());
        }
        _ => panic!("expected a list"),
    }
}

#[test]
fn runner_icon_and_display_name() {
    let mut reg = registry();
    match reg.handle_runner_command(RunnerCommand::GetExtensionIcon(args("b"))).reply {
        RunnerCommandResp::ExtensionIcon(i) => assert_eq!(i.as_deref(), Some("b.png")),
        _ => panic!("expected an icon"),
    }
    match reg.handle_runner_command(RunnerCommand::GetExtensionIcon(args(""))).reply {
        RunnerCommandResp::ExtensionIcon(i) => assert_eq!(i.as_deref(), Some("a.png")),
        _ => panic!("expected an icon"),
    }
    match reg.handle_runner_command(RunnerCommand::GetDisplayName(args("a"))).reply {
        RunnerCommandResp::ExtensionIcon(i) => assert_eq!(i.as_deref(), Some("a display")),
        _ => panic!("expected a name"),
    }
    match reg.handle_runner_command(RunnerCommand::GetDisplayName(args("q"))).reply {
        RunnerCommandResp::ExtensionIcon(i) => assert!(i.is_none()),
        _ => panic!("expected a name"),
    }
}

#[test]
fn runner_rescan_and_remove() {
    let mut reg = registry();
    let step = reg.handle_runner_command(RunnerCommand::FindNewExtensions);
    assert!(step.rescan);
    assert!(matches!(step.reply, RunnerCommandResp::Empty));
    let step = reg.handle_runner_command(RunnerCommand::RemoveExtension(args("b")));
    assert!(!step.rescan);
    assert!(matches!(step.reply, RunnerCommandResp::Empty));
    assert!(!reg.contains(&"b".to_string()));
}
