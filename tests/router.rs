use moosync_host::entities::{
    ExtensionCommandResponse, ExtensionExtraEventResponse, Song, SongReturnType,
};
use moosync_host::registry::{Extension, ExtensionHandlerInner};
use moosync_host::router::{initial_reply, plugin_reply, settle_call, CallOutcome};

fn ext(name: &str) -> Extension<u32> {
    Extension {
        plugin: 0,
        package_name: name.to_string(),
        name: format!("{} display", name),
        icon: format!("{}.png", name),
        author: None,
        version: "1.0.0".to_string(),
        path: format!("/ext/{}/ext.wasm", name),
    }
}

fn song_reply(id: &str) -> ExtensionCommandResponse {
    ExtensionCommandResponse::ExtraExtensionEvent(ExtensionExtraEventResponse::RequestedSongFromURL(
        SongReturnType {
            song: Some(Song {
                id: Some(id.to_string()),
                title: None,
                playback_url: None,
                album: None,
                artists: vec![],
            }),
        },
    ))
}

fn song_id(r: &ExtensionCommandResponse) -> Option<String> {
    match r {
        ExtensionCommandResponse::ExtraExtensionEvent(
            ExtensionExtraEventResponse::RequestedSongFromURL(SongReturnType { song: Some(s) }),
        ) => s.id.clone(),
        _ => None,
    }
}

#[test]
fn single_target_gets_exactly_one_reply() {
    let mut sent = vec![];
    if let Some(r) = initial_reply(1) {
        sent.push(r);
    }
    let answer = settle_call(&"pkgA".to_string(), CallOutcome::Parsed(song_reply("s1")));
    if let Some(r) = plugin_reply(1, answer) {
        sent.push(r);
    }
    assert_eq!(sent.len(), 1);
    assert_eq!(song_id(&sent[0]).as_deref(), Some("pkgA:s1"));
}

#[test]
fn single_target_failure_replies_empty() {
    for outcome in [CallOutcome::ParseFailed, CallOutcome::CallFailed] {
        let mut sent = vec![];
        if let Some(r) = initial_reply(1) {
            sent.push(r);
        }
        if let Some(r) = plugin_reply(1, settle_call(&"pkgA".to_string(), outcome)) {
            sent.push(r);
        }
        assert_eq!(sent.len(), 1);
        assert!(matches!(sent[0], ExtensionCommandResponse::Empty));
    }
}

#[test]
fn broadcast_gets_one_empty_reply() {
    let mut sent = vec![];
    if let Some(r) = initial_reply(3) {
        sent.push(r);
    }
    let outcomes = vec![
        CallOutcome::Parsed(song_reply("a")),
        CallOutcome::CallFailed,
        CallOutcome::ParseFailed,
    ];
    for o in outcomes {
        if let Some(r) = plugin_reply(3, settle_call(&"p".to_string(), o)) {
            sent.push(r);
        }
    }
    assert_eq!(sent.len(), 1);
    assert!(matches!(sent[0], ExtensionCommandResponse::Empty));
}

#[test]
fn no_target_gets_no_reply() {
    assert!(initial_reply(0).is_none());
    let reg: ExtensionHandlerInner<u32> = ExtensionHandlerInner::new("/ext".to_string(), "/tmp".to_string());
    let (targets, first) = reg.handle_extension_command(&"missing".to_string());
    assert!(targets.is_empty());
    assert!(first.is_none());
}

#[test]
fn broadcast_to_two_plugins_sanitizes_each_result() {
    let mut reg: ExtensionHandlerInner<u32> =
        ExtensionHandlerInner::new("/ext".to_string(), "/tmp".to_string());
    assert!(reg.insert_extension(ext("pkgA")));
    assert!(reg.insert_extension(ext("pkgB")));
    let (targets, first) = reg.handle_extension_command(&String::new());
    assert_eq!(targets.len(), 2);
    assert!(matches!(first, Some(ExtensionCommandResponse::Empty)));
    let matched = targets.len();
    let mut settled = vec![];
    let mut sent_later = 0;
    for t in &targets {
        let answer = settle_call(&t.package_name, CallOutcome::Parsed(song_reply("track")));
        settled.push(song_id(&answer));
        if plugin_reply(matched, answer).is_some() {
            sent_later += 1;
        }
    }
    assert_eq!(sent_later, 0);
    assert_eq!(settled, vec![Some("pkgA:track".to_string()), Some("pkgB:track".to_string())]);
}

#[test]
fn targeted_command_goes_to_one_plugin() {
    let mut reg: ExtensionHandlerInner<u32> =
        ExtensionHandlerInner::new("/ext".to_string(), "/tmp".to_string());
    reg.insert_extension(ext("pkgA"));
    reg.insert_extension(ext("pkgB"));
    let (targets, first) = reg.handle_extension_command(&"pkgB".to_string());
    assert_eq!(targets.len(), 1);
    assert_eq!(targets[0].package_name, "pkgB");
    assert!(first.is_none());
}
