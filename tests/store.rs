use moosync_host::oauth::{get_oauth_state, OAuthHandler};
use moosync_host::providers::{ArtistExtraInfo, Pagination, SpotifyExtraInfo};
use moosync_host::scanner::ScannerHolder;
use moosync_host::themes::ThemeHolder;
use moosync_host::tracing_writer::{LogLevel, MakeConsoleWriter};
use moosync_host::ui_store::{
    PlaylistSortBy, PlaylistSortByColumns, SongSortBy, SongSortByColumns, UiStore,
};

#[test]
fn ui_store_defaults_and_setters() {
    let mut s = UiStore::new();
    assert!(s.get_song_sort_by() == SongSortBy { asc: true, sort_by: SongSortByColumns::Album });
    assert!(
        s.get_playlist_sort_by()
            == PlaylistSortBy { asc: true, sort_by: PlaylistSortByColumns::Provider }
    );
    assert!(!s.get_show_queue());
    s.set_song_sort_by(SongSortBy { asc: false, sort_by: SongSortByColumns::PlayCount });
    assert!(s.get_song_sort_by() == SongSortBy { asc: false, sort_by: SongSortByColumns::PlayCount });
    s.set_playlist_sort_by(PlaylistSortBy { asc: false, sort_by: PlaylistSortByColumns::Title });
    assert!(s.get_playlist_sort_by().sort_by == PlaylistSortByColumns::Title);
    s.toggle_show_queue();
    assert!(s.get_show_queue());
    s.show_queue(false);
    assert!(!s.get_show_queue());
}

#[test]
fn pagination_steps() {
    let p = Pagination::new_limit(20, 0);
    assert!(p.is_first);
    let n = p.next_page();
    assert_eq!((n.limit, n.offset, n.is_first), (20, 20, false));
    let z = Pagination::new_limit(0, 5).next_page();
    assert_eq!(z.offset, 6);
    let t = Pagination::new_token(Some("tok".to_string()));
    assert_eq!((t.limit, t.offset), (0, 0));
    let w = Pagination::new_limit(10, 30).next_page_wtoken(Some("next".to_string()));
    assert_eq!(w.offset, 40);
    assert_eq!(w.token.as_deref(), Some("next"));
    assert_eq!(t.next_page().token.as_deref(), Some("tok"));
}

#[test]
fn scanner_queues_while_running() {
    let mut s = ScannerHolder::new();
    assert_eq!(s.get_progress(), 0);
    assert!(s.start_scan());
    assert!(!s.start_scan());
    s.finish_scan();
    assert!(s.start_scan());
    let d = ScannerHolder::default();
    assert_eq!(d.get_progress(), 0);
}

#[test]
fn oauth_paths_keep_their_channel() {
    let mut h: OAuthHandler = get_oauth_state();
    let a = h.register_oauth_path("spotifyoauthcallback".to_string());
    let again = h.register_oauth_path("spotifyoauthcallback".to_string());
    assert_eq!(a, again);
    let b = h.register_oauth_path("youtubeoauthcallback".to_string());
    assert_ne!(a, b);
    h.unregister_oauth_path("spotifyoauthcallback".to_string());
    let fresh = h.register_oauth_path("spotifyoauthcallback".to_string());
    assert_ne!(fresh, a);
    assert!(!h.oauth_map.contains_key(&"other".to_string()));
}

#[test]
fn theme_holder_keeps_dirs() {
    let t = ThemeHolder::new("/themes".to_string(), "/tmp".to_string());
    assert_eq!(t.theme_dir, "/themes");
    assert_eq!(t.tmp_dir, "/tmp");
}

#[test]
fn console_writer_gathers_bytes() {
    let maker = MakeConsoleWriter::new_log_file();
    let mut w = maker.make_writer_for(LogLevel::WARN);
    assert_eq!(w.write(b"hello "), 6);
    assert_eq!(w.write(b"world"), 5);
    assert_eq!(w.contents(), &b"hello world".to_vec());
    assert!(w.get_level() == LogLevel::WARN);
    assert!(w.is_log_file());
    let d = MakeConsoleWriter::default().make_writer();
    assert!(d.get_level() == LogLevel::DEBUG);
    assert!(!d.is_log_file());
}

#[test]
fn spotify_extra_info_builds() {
    let _ = SpotifyExtraInfo::new(ArtistExtraInfo::new("artist".to_string()));
}
