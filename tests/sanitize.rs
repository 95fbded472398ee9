use moosync_host::entities::{
    AccountDetails, Album, Artist, ExtensionCommandResponse, ExtensionExtraEventResponse,
    PlaybackDetailsReturnType, Playlist, PlaylistAndSongsReturnType, SearchReturnType, Song,
    SongReturnType,
};
use moosync_host::sanitize::sanitize_response;

fn artist(id: &str) -> Artist {
    Artist { artist_id: Some(id.to_string()), artist_name: Some("Name".to_string()) }
}

fn song(id: Option<&str>) -> Song {
    Song {
        id: id.map(|s| s.to_string()),
        title: Some("Title".to_string()),
        playback_url: None,
        album: Some(Album { album_id: Some("album1".to_string()), album_name: None }),
        artists: vec![artist("artist1"), artist("artist2")],
    }
}

fn song_from_url(s: Song) -> ExtensionCommandResponse {
    ExtensionCommandResponse::ExtraExtensionEvent(
        ExtensionExtraEventResponse::RequestedSongFromURL(SongReturnType { song: Some(s) }),
    )
}

fn unwrap_song(r: &ExtensionCommandResponse) -> &Song {
    match r {
        ExtensionCommandResponse::ExtraExtensionEvent(
            ExtensionExtraEventResponse::RequestedSongFromURL(SongReturnType { song: Some(s) }),
        ) => s,
        _ => panic!("unexpected response shape"),
    }
}

#[test]
fn sanitize_prefixes_song_album_and_artists() {
    let mut r = song_from_url(song(Some("song1")));
    sanitize_response(&mut r, "pkgA".to_string());
    let s = unwrap_song(&r);
    assert_eq!(s.id.as_deref(), Some("pkgA:song1"));
    assert_eq!(s.album.as_ref().unwrap().album_id.as_deref(), Some("pkgA:album1"));
    assert_eq!(s.artists[0].artist_id.as_deref(), Some("pkgA:artist1"));
    assert_eq!(s.artists[1].artist_id.as_deref(), Some("pkgA:artist2"));
    assert_eq!(s.title.as_deref(), Some("Title"));
    assert_eq!(s.artists[0].artist_name.as_deref(), Some("Name"));
}

#[test]
fn sanitize_keeps_absent_ids_absent() {
    let mut r = song_from_url(song(None));
    sanitize_response(&mut r, "pkgA".to_string());
    assert_eq!(unwrap_song(&r).id, None);
}

#[test]
fn sanitize_twice_prefixes_twice() {
    let mut r = ExtensionCommandResponse::ExtraExtensionEvent(
        ExtensionExtraEventResponse::RequestedSearchResult(SearchReturnType {
            songs: vec![],
            playlists: vec![],
            artists: vec![artist("pkgA:artist123")],
            albums: vec![],
        }),
    );
    sanitize_response(&mut r, "pkgA".to_string());
    match &r {
        ExtensionCommandResponse::ExtraExtensionEvent(
            ExtensionExtraEventResponse::RequestedSearchResult(s),
        ) => assert_eq!(s.artists[0].artist_id.as_deref(), Some("pkgA:pkgA:artist123")),
        _ => panic!("unexpected response shape"),
    }
}

#[test]
fn sanitize_search_result_covers_every_list() {
    let mut r = ExtensionCommandResponse::ExtraExtensionEvent(
        ExtensionExtraEventResponse::RequestedSearchResult(SearchReturnType {
            songs: vec![song(Some("s"))],
            playlists: vec![Playlist { playlist_id: Some("p".to_string()), playlist_name: "P".to_string() }],
            artists: vec![artist("a")],
            albums: vec![Album { album_id: Some("al".to_string()), album_name: None }],
        }),
    );
    sanitize_response(&mut r, "x".to_string());
    match &r {
        ExtensionCommandResponse::ExtraExtensionEvent(
            ExtensionExtraEventResponse::RequestedSearchResult(s),
        ) => {
            assert_eq!(s.songs[0].id.as_deref(), Some("x:s"));
            assert_eq!(s.playlists[0].playlist_id.as_deref(), Some("x:p"));
            assert_eq!(s.artists[0].artist_id.as_deref(), Some("x:a"));
            assert_eq!(s.albums[0].album_id.as_deref(), Some("x:al"));
        }
        _ => panic!("unexpected response shape"),
    }
}

#[test]
fn sanitize_playlist_from_url() {
    let mut r = ExtensionCommandResponse::ExtraExtensionEvent(
        ExtensionExtraEventResponse::RequestedPlaylistFromURL(PlaylistAndSongsReturnType {
            playlist: Some(Playlist { playlist_id: Some("p1".to_string()), playlist_name: "P".to_string() }),
            songs: Some(vec![song(Some("s1"))]),
        }),
    );
    sanitize_response(&mut r, "pkgB".to_string());
    match &r {
        ExtensionCommandResponse::ExtraExtensionEvent(
            ExtensionExtraEventResponse::RequestedPlaylistFromURL(p),
        ) => {
            assert_eq!(p.playlist.as_ref().unwrap().playlist_id.as_deref(), Some("pkgB:p1"));
            assert_eq!(p.songs.as_ref().unwrap()[0].id.as_deref(), Some("pkgB:s1"));
        }
        _ => panic!("unexpected response shape"),
    }
}

#[test]
fn sanitize_attributes_accounts_to_package() {
    let mut r = ExtensionCommandResponse::GetAccounts(vec![AccountDetails {
        id: "acc".to_string(),
        package_name: "someone.else".to_string(),
        name: "Account".to_string(),
        bg_color: "#000".to_string(),
        icon: String::new(),
        logged_in: true,
        username: None,
    }]);
    sanitize_response(&mut r, "pkgA".to_string());
    sanitize_response(&mut r, "pkgA".to_string());
    match &r {
        ExtensionCommandResponse::GetAccounts(a) => {
            assert_eq!(a[0].package_name, "pkgA");
            assert_eq!(a[0].id, "acc");
        }
        _ => panic!("unexpected response shape"),
    }
}

#[test]
fn sanitize_leaves_payloads_without_ids() {
    let mut r = ExtensionCommandResponse::ExtraExtensionEvent(
        ExtensionExtraEventResponse::PlaybackDetailsRequested(PlaybackDetailsReturnType {
            duration: 12,
            url: "https://example.org/a".to_string(),
        }),
    );
    sanitize_response(&mut r, "pkgA".to_string());
    sanitize_response(&mut r, "pkgA".to_string());
    match &r {
        ExtensionCommandResponse::ExtraExtensionEvent(
            ExtensionExtraEventResponse::PlaybackDetailsRequested(p),
        ) => {
            assert_eq!(p.url, "https://example.org/a");
            assert_eq!(p.duration, 12);
        }
        _ => panic!("unexpected response shape"),
    }
    let mut e = ExtensionCommandResponse::Empty;
    sanitize_response(&mut e, "pkgA".to_string());
    assert!(matches!(e, ExtensionCommandResponse::Empty));
}
