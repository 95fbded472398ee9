//! Entities that plugins hand back to the host, and the reply payloads that
//! carry them.
use vstd::prelude::*;

verus! {

/// An artist as a provider describes it.
pub struct Artist {
    pub artist_id: Option<String>,
    pub artist_name: Option<String>,
}

/// An album as a provider describes it.
pub struct Album {
    pub album_id: Option<String>,
    pub album_name: Option<String>,
}

/// A song, with the album and artists it belongs to.
pub struct Song {
    pub id: Option<String>,
    pub title: Option<String>,
    pub playback_url: Option<String>,
    pub album: Option<Album>,
    pub artists: Vec<Artist>,
}

/// A playlist as a provider describes it.
pub struct Playlist {
    pub playlist_id: Option<String>,
    pub playlist_name: String,
}

/// An account that a plugin offers for login.
pub struct AccountDetails {
    pub id: String,
    pub package_name: String,
    pub name: String,
    pub bg_color: String,
    pub icon: String,
    pub logged_in: bool,
    pub username: Option<String>,
}

/// What a plugin declares that it can provide.
#[derive(PartialEq, Eq, Structural, Clone, Copy, Debug)]
pub enum ExtensionProviderScope {
    Search,
    Playlists,
    PlaylistSongs,
    ArtistSongs,
    AlbumSongs,
    Recommendations,
    Scrobbles,
    PlaylistFromUrl,
    SongFromUrl,
    SearchAlbum,
    SearchArtist,
    Accounts,
    PlaybackDetails,
    Lyrics,
}

/// One entry of a context menu that a plugin contributes.
pub struct ContextMenuItem {
    pub id: String,
    pub label: String,
}

pub struct PlaylistReturnType {
    pub playlists: Vec<Playlist>,
}

pub struct SongsWithPageTokenReturnType {
    pub songs: Vec<Song>,
    pub next_page_token: Option<String>,
}

pub struct PlaybackDetailsReturnType {
    pub duration: u64,
    pub url: String,
}

pub struct CustomRequestReturnType {
    pub mime_type: Option<String>,
    pub data: Option<Vec<u8>>,
    pub redirect_url: Option<String>,
}

pub struct SongReturnType {
    pub song: Option<Song>,
}

pub struct PlaylistAndSongsReturnType {
    pub playlist: Option<Playlist>,
    pub songs: Option<Vec<Song>>,
}

pub struct SearchReturnType {
    pub songs: Vec<Song>,
    pub playlists: Vec<Playlist>,
    pub artists: Vec<Artist>,
    pub albums: Vec<Album>,
}

pub struct RecommendationsReturnType {
    pub songs: Vec<Song>,
}

/// The reply to a generic "extra event" sent to a plugin.
pub enum ExtensionExtraEventResponse {
    RequestedPlaylists(PlaylistReturnType),
    RequestedPlaylistSongs(SongsWithPageTokenReturnType),
    OauthCallback,
    SongQueueChanged,
    Seeked,
    VolumeChanged,
    PlayerStateChanged,
    SongChanged,
    PreferenceChanged,
    PlaybackDetailsRequested(PlaybackDetailsReturnType),
    CustomRequest(CustomRequestReturnType),
    RequestedSongFromURL(SongReturnType),
    RequestedPlaylistFromURL(PlaylistAndSongsReturnType),
    RequestedSearchResult(SearchReturnType),
    RequestedRecommendations(RecommendationsReturnType),
    RequestedLyrics(String),
    RequestedArtistSongs(SongsWithPageTokenReturnType),
    RequestedAlbumSongs(SongsWithPageTokenReturnType),
    SongAdded,
    SongRemoved,
    PlaylistAdded,
    PlaylistRemoved,
    RequestedSongFromId(SongReturnType),
    GetRemoteURL(String),
    Scrobble,
}

/// The reply to a command sent to a plugin; `Empty` marks "no payload".
pub enum ExtensionCommandResponse {
    GetProviderScopes(Vec<ExtensionProviderScope>),
    GetExtensionContextMenu(Vec<ContextMenuItem>),
    GetAccounts(Vec<AccountDetails>),
    PerformAccountLogin,
    ExtraExtensionEvent(ExtensionExtraEventResponse),
    Empty,
}

} // verus!
