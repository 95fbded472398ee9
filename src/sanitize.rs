//! Namespacing of plugin-sourced identifiers.
//!
//! Every identifier that a plugin hands back (songs, albums, artists,
//! playlists, also when nested) is prefixed with `"<package>:"`, so that
//! identifiers of different plugins never collide. The prefix is prepended
//! unconditionally: a second pass prefixes a second time.
use vstd::prelude::*;
use crate::entities::{
    AccountDetails, Album, Artist, ExtensionCommandResponse, ExtensionExtraEventResponse, Playlist,
    Song,
};

verus! {

/// The characters of an optional string.
pub open spec fn opt_view(o: Option<String>) -> Option<Seq<char>> {
    match o {
        Some(s) => Some(s@),
        None => None,
    }
}

/// An identifier after prefixing; an absent identifier stays absent.
pub open spec fn prefixed(p: Seq<char>, id: Option<Seq<char>>) -> Option<Seq<char>> {
    match id {
        Some(s) => Some(p + s),
        None => None,
    }
}

/// The prefix used for a package's identifiers: the package name and `:`.
pub open spec fn id_prefix(package_name: Seq<char>) -> Seq<char> {
    package_name + seq![':']
}

pub open spec fn artist_rel(p: Seq<char>, a: Artist, b: Artist) -> bool {
    &&& opt_view(b.artist_id) == prefixed(p, opt_view(a.artist_id))
    &&& b.artist_name == a.artist_name
}

pub open spec fn artists_rel(p: Seq<char>, a: Seq<Artist>, b: Seq<Artist>) -> bool {
    &&& b.len() == a.len()
    &&& forall|i: int| 0 <= i < a.len() ==> #[trigger] artist_rel(p, a[i], b[i])
}

pub open spec fn album_rel(p: Seq<char>, a: Album, b: Album) -> bool {
    &&& opt_view(b.album_id) == prefixed(p, opt_view(a.album_id))
    &&& b.album_name == a.album_name
}

pub open spec fn albums_rel(p: Seq<char>, a: Seq<Album>, b: Seq<Album>) -> bool {
    &&& b.len() == a.len()
    &&& forall|i: int| 0 <= i < a.len() ==> #[trigger] album_rel(p, a[i], b[i])
}

pub open spec fn opt_album_rel(p: Seq<char>, a: Option<Album>, b: Option<Album>) -> bool {
    match a {
        Some(x) => b matches Some(y) && album_rel(p, x, y),
        None => b is None,
    }
}

/// `b` is song `a` with its own, its album's and its artists' identifiers
/// prefixed by `p`, and nothing else changed.
pub open spec fn song_rel(p: Seq<char>, a: Song, b: Song) -> bool {
    &&& opt_view(b.id) == prefixed(p, opt_view(a.id))
    &&& b.title == a.title
    &&& b.playback_url == a.playback_url
    &&& opt_album_rel(p, a.album, b.album)
    &&& artists_rel(p, a.artists@, b.artists@)
}

pub open spec fn songs_rel(p: Seq<char>, a: Seq<Song>, b: Seq<Song>) -> bool {
    &&& b.len() == a.len()
    &&& forall|i: int| 0 <= i < a.len() ==> #[trigger] song_rel(p, a[i], b[i])
}

pub open spec fn opt_song_rel(p: Seq<char>, a: Option<Song>, b: Option<Song>) -> bool {
    match a {
        Some(x) => b matches Some(y) && song_rel(p, x, y),
        None => b is None,
    }
}

pub open spec fn opt_songs_rel(p: Seq<char>, a: Option<Vec<Song>>, b: Option<Vec<Song>>) -> bool {
    match a {
        Some(x) => b matches Some(y) && songs_rel(p, x@, y@),
        None => b is None,
    }
}

pub open spec fn playlist_rel(p: Seq<char>, a: Playlist, b: Playlist) -> bool {
    &&& opt_view(b.playlist_id) == prefixed(p, opt_view(a.playlist_id))
    &&& b.playlist_name == a.playlist_name
}

pub open spec fn playlists_rel(p: Seq<char>, a: Seq<Playlist>, b: Seq<Playlist>) -> bool {
    &&& b.len() == a.len()
    &&& forall|i: int| 0 <= i < a.len() ==> #[trigger] playlist_rel(p, a[i], b[i])
}

pub open spec fn opt_playlist_rel(p: Seq<char>, a: Option<Playlist>, b: Option<Playlist>) -> bool {
    match a {
        Some(x) => b matches Some(y) && playlist_rel(p, x, y),
        None => b is None,
    }
}

/// Prefixes an identifier in place.
fn prefix_id(prefix: &str, id: &mut Option<String>)
    ensures
        opt_view(*final(id)) == prefixed(prefix@, opt_view(*old(id))),
{
    match id {
        Some(s) => {
            let mut n = prefix.to_owned();
            n.append(s.as_str());
            *s = n;
        },
        None => {},
    }
}

/// Prefixes the identifier of an artist.
pub fn sanitize_artist(prefix: &str, artist: &mut Artist)
    ensures
        artist_rel(prefix@, *old(artist), *final(artist)),
{
    prefix_id(prefix, &mut artist.artist_id);
}

/// Prefixes the identifier of an album.
pub fn sanitize_album(prefix: &str, album: &mut Album)
    ensures
        album_rel(prefix@, *old(album), *final(album)),
{
    prefix_id(prefix, &mut album.album_id);
}

/// Prefixes the identifier of a playlist.
pub fn sanitize_playlist(prefix: &str, playlist: &mut Playlist)
    ensures
        playlist_rel(prefix@, *old(playlist), *final(playlist)),
{
    prefix_id(prefix, &mut playlist.playlist_id);
}

fn sanitize_artists(prefix: &str, artists: &mut Vec<Artist>)
    ensures
        artists_rel(prefix@, old(artists)@, final(artists)@),
{
    let ghost start = artists@;
    let n = artists.len();
    let mut i: usize = 0;
    while i < n
        invariant
            0 <= i <= n,
            n == start.len(),
            artists@.len() == n,
            forall|j: int| 0 <= j < i ==> #[trigger] artist_rel(prefix@, start[j], artists@[j]),
            forall|j: int| i <= j < n ==> artists@[j] == start[j],
        decreases n - i,
    {
        sanitize_artist(prefix, &mut artists[i]);
        i = i + 1;
    }
}

fn sanitize_albums(prefix: &str, albums: &mut Vec<Album>)
    ensures
        albums_rel(prefix@, old(albums)@, final(albums)@),
{
    let ghost start = albums@;
    let n = albums.len();
    let mut i: usize = 0;
    while i < n
        invariant
            0 <= i <= n,
            n == start.len(),
            albums@.len() == n,
            forall|j: int| 0 <= j < i ==> #[trigger] album_rel(prefix@, start[j], albums@[j]),
            forall|j: int| i <= j < n ==> albums@[j] == start[j],
        decreases n - i,
    {
        sanitize_album(prefix, &mut albums[i]);
        i = i + 1;
    }
}

fn sanitize_playlists(prefix: &str, playlists: &mut Vec<Playlist>)
    ensures
        playlists_rel(prefix@, old(playlists)@, final(playlists)@),
{
    let ghost start = playlists@;
    let n = playlists.len();
    let mut i: usize = 0;
    while i < n
        invariant
            0 <= i <= n,
            n == start.len(),
            playlists@.len() == n,
            forall|j: int| 0 <= j < i ==> #[trigger] playlist_rel(prefix@, start[j], playlists@[j]),
            forall|j: int| i <= j < n ==> playlists@[j] == start[j],
        decreases n - i,
    {
        sanitize_playlist(prefix, &mut playlists[i]);
        i = i + 1;
    }
}

/// Prefixes the identifier of a song, of its album and of each of its artists.
pub fn sanitize_song(prefix: &str, song: &mut Song)
    ensures
        song_rel(prefix@, *old(song), *final(song)),
{
    prefix_id(prefix, &mut song.id);
    match &mut song.album {
        Some(album) => sanitize_album(prefix, album),
        None => {},
    }
    sanitize_artists(prefix, &mut song.artists);
}

fn sanitize_songs(prefix: &str, songs: &mut Vec<Song>)
    ensures
        songs_rel(prefix@, old(songs)@, final(songs)@),
{
    let ghost start = songs@;
    let n = songs.len();
    let mut i: usize = 0;
    while i < n
        invariant
            0 <= i <= n,
            n == start.len(),
            songs@.len() == n,
            forall|j: int| 0 <= j < i ==> #[trigger] song_rel(prefix@, start[j], songs@[j]),
            forall|j: int| i <= j < n ==> songs@[j] == start[j],
        decreases n - i,
    {
        sanitize_song(prefix, &mut songs[i]);
        i = i + 1;
    }
}

/// `b` is account `a` attributed to package `k`.
pub open spec fn account_rel(k: Seq<char>, a: AccountDetails, b: AccountDetails) -> bool {
    &&& b.package_name@ == k
    &&& b.id == a.id
    &&& b.name == a.name
    &&& b.bg_color == a.bg_color
    &&& b.icon == a.icon
    &&& b.logged_in == a.logged_in
    &&& b.username == a.username
}

pub open spec fn accounts_rel(k: Seq<char>, a: Seq<AccountDetails>, b: Seq<AccountDetails>) -> bool {
    &&& b.len() == a.len()
    &&& forall|i: int| 0 <= i < a.len() ==> #[trigger] account_rel(k, a[i], b[i])
}

pub open spec fn songs_page_rel(
    p: Seq<char>,
    a: crate::entities::SongsWithPageTokenReturnType,
    b: crate::entities::SongsWithPageTokenReturnType,
) -> bool {
    songs_rel(p, a.songs@, b.songs@) && b.next_page_token == a.next_page_token
}

/// `b` is the event reply `a` with every identifier it carries prefixed by
/// `p`; replies that carry no identifiers are left as they are.
pub open spec fn event_rel(
    p: Seq<char>,
    a: ExtensionExtraEventResponse,
    b: ExtensionExtraEventResponse,
) -> bool {
    match a {
        ExtensionExtraEventResponse::RequestedPlaylists(x) => {
            b matches ExtensionExtraEventResponse::RequestedPlaylists(y) && playlists_rel(
                p,
                x.playlists@,
                y.playlists@,
            )
        },
        ExtensionExtraEventResponse::RequestedPlaylistSongs(x) => {
            b matches ExtensionExtraEventResponse::RequestedPlaylistSongs(y) && songs_page_rel(p, x, y)
        },
        ExtensionExtraEventResponse::RequestedSongFromURL(x) => {
            b matches ExtensionExtraEventResponse::RequestedSongFromURL(y) && opt_song_rel(
                p,
                x.song,
                y.song,
            )
        },
        ExtensionExtraEventResponse::RequestedPlaylistFromURL(x) => {
            &&& b matches ExtensionExtraEventResponse::RequestedPlaylistFromURL(y)
            &&& opt_playlist_rel(p, x.playlist, y.playlist)
            &&& opt_songs_rel(p, x.songs, y.songs)
        },
        ExtensionExtraEventResponse::RequestedSearchResult(x) => {
            &&& b matches ExtensionExtraEventResponse::RequestedSearchResult(y)
            &&& songs_rel(p, x.songs@, y.songs@)
            &&& albums_rel(p, x.albums@, y.albums@)
            &&& artists_rel(p, x.artists@, y.artists@)
            &&& playlists_rel(p, x.playlists@, y.playlists@)
        },
        ExtensionExtraEventResponse::RequestedRecommendations(x) => {
            b matches ExtensionExtraEventResponse::RequestedRecommendations(y) && songs_rel(
                p,
                x.songs@,
                y.songs@,
            )
        },
        ExtensionExtraEventResponse::RequestedArtistSongs(x) => {
            b matches ExtensionExtraEventResponse::RequestedArtistSongs(y) && songs_page_rel(p, x, y)
        },
        ExtensionExtraEventResponse::RequestedAlbumSongs(x) => {
            b matches ExtensionExtraEventResponse::RequestedAlbumSongs(y) && songs_page_rel(p, x, y)
        },
        ExtensionExtraEventResponse::RequestedSongFromId(x) => {
            b matches ExtensionExtraEventResponse::RequestedSongFromId(y) && opt_song_rel(
                p,
                x.song,
                y.song,
            )
        },
        _ => b == a,
    }
}

/// `b` is the command reply `a` with identifiers prefixed by `p` and accounts
/// attributed to package `k`; other replies are left as they are.
pub open spec fn response_rel(
    p: Seq<char>,
    k: Seq<char>,
    a: ExtensionCommandResponse,
    b: ExtensionCommandResponse,
) -> bool {
    match a {
        ExtensionCommandResponse::GetAccounts(x) => {
            b matches ExtensionCommandResponse::GetAccounts(y) && accounts_rel(k, x@, y@)
        },
        ExtensionCommandResponse::ExtraExtensionEvent(x) => {
            b matches ExtensionCommandResponse::ExtraExtensionEvent(y) && event_rel(p, x, y)
        },
        _ => b == a,
    }
}

/// The reply as the host keeps it: identifiers namespaced under
/// `package_name`, accounts attributed to it.
pub open spec fn sanitized(
    package_name: Seq<char>,
    a: ExtensionCommandResponse,
    b: ExtensionCommandResponse,
) -> bool {
    response_rel(id_prefix(package_name), package_name, a, b)
}

fn attribute_accounts(package_name: &String, accounts: &mut Vec<AccountDetails>)
    ensures
        accounts_rel(package_name@, old(accounts)@, final(accounts)@),
{
    let ghost start = accounts@;
    let n = accounts.len();
    let mut i: usize = 0;
    while i < n
        invariant
            0 <= i <= n,
            n == start.len(),
            accounts@.len() == n,
            forall|j: int| 0 <= j < i ==> #[trigger] account_rel(package_name@, start[j], accounts@[j]),
            forall|j: int| i <= j < n ==> accounts@[j] == start[j],
        decreases n - i,
    {
        let account = &mut accounts[i];
        account.package_name = package_name.clone();
        i = i + 1;
    }
}

fn sanitize_event(prefix: &str, resp: &mut ExtensionExtraEventResponse)
    ensures
        event_rel(prefix@, *old(resp), *final(resp)),
{
    match resp {
        ExtensionExtraEventResponse::RequestedPlaylists(r) => {
            sanitize_playlists(prefix, &mut r.playlists);
        },
        ExtensionExtraEventResponse::RequestedPlaylistSongs(r) => {
            sanitize_songs(prefix, &mut r.songs);
        },
        ExtensionExtraEventResponse::RequestedSongFromURL(r) => {
            match &mut r.song {
                Some(song) => sanitize_song(prefix, song),
                None => {},
            }
        },
        ExtensionExtraEventResponse::RequestedPlaylistFromURL(r) => {
            match &mut r.playlist {
                Some(playlist) => sanitize_playlist(prefix, playlist),
                None => {},
            }
            match &mut r.songs {
                Some(songs) => sanitize_songs(prefix, songs),
                None => {},
            }
        },
        ExtensionExtraEventResponse::RequestedSearchResult(r) => {
            sanitize_songs(prefix, &mut r.songs);
            sanitize_albums(prefix, &mut r.albums);
            sanitize_artists(prefix, &mut r.artists);
            sanitize_playlists(prefix, &mut r.playlists);
        },
        ExtensionExtraEventResponse::RequestedRecommendations(r) => {
            sanitize_songs(prefix, &mut r.songs);
        },
        ExtensionExtraEventResponse::RequestedArtistSongs(r) => {
            sanitize_songs(prefix, &mut r.songs);
        },
        ExtensionExtraEventResponse::RequestedAlbumSongs(r) => {
            sanitize_songs(prefix, &mut r.songs);
        },
        ExtensionExtraEventResponse::RequestedSongFromId(r) => {
            match &mut r.song {
                Some(song) => sanitize_song(prefix, song),
                None => {},
            }
        },
        ExtensionExtraEventResponse::OauthCallback => {},
        ExtensionExtraEventResponse::SongQueueChanged => {},
        ExtensionExtraEventResponse::Seeked => {},
        ExtensionExtraEventResponse::VolumeChanged => {},
        ExtensionExtraEventResponse::PlayerStateChanged => {},
        ExtensionExtraEventResponse::SongChanged => {},
        ExtensionExtraEventResponse::PreferenceChanged => {},
        ExtensionExtraEventResponse::PlaybackDetailsRequested(_) => {},
        ExtensionExtraEventResponse::CustomRequest(_) => {},
        ExtensionExtraEventResponse::RequestedLyrics(_) => {},
        ExtensionExtraEventResponse::SongAdded => {},
        ExtensionExtraEventResponse::SongRemoved => {},
        ExtensionExtraEventResponse::PlaylistAdded => {},
        ExtensionExtraEventResponse::PlaylistRemoved => {},
        ExtensionExtraEventResponse::GetRemoteURL(_) => {},
        ExtensionExtraEventResponse::Scrobble => {},
    }
}

/// Namespaces a plugin's reply under its package: every identifier gets the
/// prefix `"<package_name>:"` (once per call, unconditionally) and every
/// account is attributed to the package.
pub fn sanitize_response(response: &mut ExtensionCommandResponse, package_name: String)
    ensures
        sanitized(package_name@, *old(response), *final(response)),
{
    match response {
        ExtensionCommandResponse::GetProviderScopes(_) => {},
        ExtensionCommandResponse::GetExtensionContextMenu(_) => {},
        ExtensionCommandResponse::GetAccounts(accounts) => {
            attribute_accounts(&package_name, accounts);
        },
        ExtensionCommandResponse::PerformAccountLogin => {},
        ExtensionCommandResponse::ExtraExtensionEvent(resp) => {
            let mut prefix = package_name.clone();
            prefix.append(":");
            proof {
                reveal_strlit(":");
                assert(prefix@ =~= id_prefix(package_name@));
            }
            sanitize_event(prefix.as_str(), resp);
        },
        ExtensionCommandResponse::Empty => {},
    }
}

proof fn lemma_prefixed_compose(p: Seq<char>, q: Seq<char>, id: Option<Seq<char>>)
    ensures
        prefixed(q, prefixed(p, id)) == prefixed(q + p, id),
{
    if let Some(s) = id {
        assert(q + (p + s) =~= (q + p) + s);
    }
}

proof fn lemma_compose_artists(p: Seq<char>, q: Seq<char>, a: Seq<Artist>, b: Seq<Artist>, c: Seq<Artist>)
    requires
        artists_rel(p, a, b),
        artists_rel(q, b, c),
    ensures
        artists_rel(q + p, a, c),
{
    assert forall|i: int| 0 <= i < a.len() implies #[trigger] artist_rel(q + p, a[i], c[i]) by {
        assert(artist_rel(p, a[i], b[i]) && artist_rel(q, b[i], c[i]));
        lemma_prefixed_compose(p, q, opt_view(a[i].artist_id));
    }
}

proof fn lemma_compose_albums(p: Seq<char>, q: Seq<char>, a: Seq<Album>, b: Seq<Album>, c: Seq<Album>)
    requires
        albums_rel(p, a, b),
        albums_rel(q, b, c),
    ensures
        albums_rel(q + p, a, c),
{
    assert forall|i: int| 0 <= i < a.len() implies #[trigger] album_rel(q + p, a[i], c[i]) by {
        assert(album_rel(p, a[i], b[i]) && album_rel(q, b[i], c[i]));
        lemma_prefixed_compose(p, q, opt_view(a[i].album_id));
    }
}

proof fn lemma_compose_playlists(
    p: Seq<char>,
    q: Seq<char>,
    a: Seq<Playlist>,
    b: Seq<Playlist>,
    c: Seq<Playlist>,
)
    requires
        playlists_rel(p, a, b),
        playlists_rel(q, b, c),
    ensures
        playlists_rel(q + p, a, c),
{
    assert forall|i: int| 0 <= i < a.len() implies #[trigger] playlist_rel(q + p, a[i], c[i]) by {
        assert(playlist_rel(p, a[i], b[i]) && playlist_rel(q, b[i], c[i]));
        lemma_prefixed_compose(p, q, opt_view(a[i].playlist_id));
    }
}

proof fn lemma_compose_opt_playlist(
    p: Seq<char>,
    q: Seq<char>,
    a: Option<Playlist>,
    b: Option<Playlist>,
    c: Option<Playlist>,
)
    requires
        opt_playlist_rel(p, a, b),
        opt_playlist_rel(q, b, c),
    ensures
        opt_playlist_rel(q + p, a, c),
{
    if let Some(x) = a {
        lemma_prefixed_compose(p, q, opt_view(x.playlist_id));
    }
}

proof fn lemma_compose_song(p: Seq<char>, q: Seq<char>, a: Song, b: Song, c: Song)
    requires
        song_rel(p, a, b),
        song_rel(q, b, c),
    ensures
        song_rel(q + p, a, c),
{
    lemma_prefixed_compose(p, q, opt_view(a.id));
    if let Some(x) = a.album {
        lemma_prefixed_compose(p, q, opt_view(x.album_id));
    }
    lemma_compose_artists(p, q, a.artists@, b.artists@, c.artists@);
}

proof fn lemma_compose_songs(p: Seq<char>, q: Seq<char>, a: Seq<Song>, b: Seq<Song>, c: Seq<Song>)
    requires
        songs_rel(p, a, b),
        songs_rel(q, b, c),
    ensures
        songs_rel(q + p, a, c),
{
    assert forall|i: int| 0 <= i < a.len() implies #[trigger] song_rel(q + p, a[i], c[i]) by {
        assert(song_rel(p, a[i], b[i]) && song_rel(q, b[i], c[i]));
        lemma_compose_song(p, q, a[i], b[i], c[i]);
    }
}

proof fn lemma_compose_opt_song(p: Seq<char>, q: Seq<char>, a: Option<Song>, b: Option<Song>, c: Option<Song>)
    requires
        opt_song_rel(p, a, b),
        opt_song_rel(q, b, c),
    ensures
        opt_song_rel(q + p, a, c),
{
    if let Some(x) = a {
        lemma_compose_song(p, q, x, b->0, c->0);
    }
}

proof fn lemma_compose_event(
    p: Seq<char>,
    q: Seq<char>,
    a: ExtensionExtraEventResponse,
    b: ExtensionExtraEventResponse,
    c: ExtensionExtraEventResponse,
)
    requires
        event_rel(p, a, b),
        event_rel(q, b, c),
    ensures
        event_rel(q + p, a, c),
{
    match a {
        ExtensionExtraEventResponse::RequestedPlaylists(x) => {
            lemma_compose_playlists(
                p,
                q,
                x.playlists@,
                b->RequestedPlaylists_0.playlists@,
                c->RequestedPlaylists_0.playlists@,
            );
        },
        ExtensionExtraEventResponse::RequestedPlaylistSongs(x) => {
            lemma_compose_songs(
                p,
                q,
                x.songs@,
                b->RequestedPlaylistSongs_0.songs@,
                c->RequestedPlaylistSongs_0.songs@,
            );
        },
        ExtensionExtraEventResponse::RequestedSongFromURL(x) => {
            lemma_compose_opt_song(
                p,
                q,
                x.song,
                b->RequestedSongFromURL_0.song,
                c->RequestedSongFromURL_0.song,
            );
        },
        ExtensionExtraEventResponse::RequestedPlaylistFromURL(x) => {
            let y = b->RequestedPlaylistFromURL_0;
            let z = c->RequestedPlaylistFromURL_0;
            lemma_compose_opt_playlist(p, q, x.playlist, y.playlist, z.playlist);
            if let Some(s) = x.songs {
                lemma_compose_songs(p, q, s@, y.songs->0@, z.songs->0@);
            }
        },
        ExtensionExtraEventResponse::RequestedSearchResult(x) => {
            let y = b->RequestedSearchResult_0;
            let z = c->RequestedSearchResult_0;
            lemma_compose_songs(p, q, x.songs@, y.songs@, z.songs@);
            lemma_compose_albums(p, q, x.albums@, y.albums@, z.albums@);
            lemma_compose_artists(p, q, x.artists@, y.artists@, z.artists@);
            lemma_compose_playlists(p, q, x.playlists@, y.playlists@, z.playlists@);
        },
        ExtensionExtraEventResponse::RequestedRecommendations(x) => {
            lemma_compose_songs(
                p,
                q,
                x.songs@,
                b->RequestedRecommendations_0.songs@,
                c->RequestedRecommendations_0.songs@,
            );
        },
        ExtensionExtraEventResponse::RequestedArtistSongs(x) => {
            lemma_compose_songs(
                p,
                q,
                x.songs@,
                b->RequestedArtistSongs_0.songs@,
                c->RequestedArtistSongs_0.songs@,
            );
        },
        ExtensionExtraEventResponse::RequestedAlbumSongs(x) => {
            lemma_compose_songs(
                p,
                q,
                x.songs@,
                b->RequestedAlbumSongs_0.songs@,
                c->RequestedAlbumSongs_0.songs@,
            );
        },
        ExtensionExtraEventResponse::RequestedSongFromId(x) => {
            lemma_compose_opt_song(
                p,
                q,
                x.song,
                b->RequestedSongFromId_0.song,
                c->RequestedSongFromId_0.song,
            );
        },
        _ => {},
    }
}

/// Sanitizing is not idempotent: a reply sanitized twice under the same
/// package carries every identifier with the package prefix twice
/// (`"pkg:pkg:id"`), while accounts stay attributed to the package.
pub proof fn lemma_sanitize_twice(
    package_name: Seq<char>,
    r0: ExtensionCommandResponse,
    r1: ExtensionCommandResponse,
    r2: ExtensionCommandResponse,
)
    requires
        sanitized(package_name, r0, r1),
        sanitized(package_name, r1, r2),
    ensures
        response_rel(
            id_prefix(package_name) + id_prefix(package_name),
            package_name,
            r0,
            r2,
        ),
{
    let p = id_prefix(package_name);
    match r0 {
        ExtensionCommandResponse::GetAccounts(x) => {
            let y = r1->GetAccounts_0;
            let z = r2->GetAccounts_0;
            assert forall|i: int| 0 <= i < x@.len() implies #[trigger] account_rel(
                package_name,
                x@[i],
                z@[i],
            ) by {
                assert(account_rel(package_name, x@[i], y@[i]));
                assert(account_rel(package_name, y@[i], z@[i]));
            }
        },
        ExtensionCommandResponse::ExtraExtensionEvent(x) => {
            lemma_compose_event(p, p, x, r1->ExtraExtensionEvent_0, r2->ExtraExtensionEvent_0);
        },
        _ => {},
    }
}

pub open spec fn artists_have_no_ids(a: Seq<Artist>) -> bool {
    forall|i: int| 0 <= i < a.len() ==> (#[trigger] a[i]).artist_id is None
}

pub open spec fn albums_have_no_ids(a: Seq<Album>) -> bool {
    forall|i: int| 0 <= i < a.len() ==> (#[trigger] a[i]).album_id is None
}

pub open spec fn playlists_have_no_ids(a: Seq<Playlist>) -> bool {
    forall|i: int| 0 <= i < a.len() ==> (#[trigger] a[i]).playlist_id is None
}

pub open spec fn song_has_no_ids(s: Song) -> bool {
    &&& s.id is None
    &&& (s.album matches Some(al) ==> al.album_id is None)
    &&& artists_have_no_ids(s.artists@)
}

pub open spec fn songs_have_no_ids(a: Seq<Song>) -> bool {
    forall|i: int| 0 <= i < a.len() ==> song_has_no_ids(#[trigger] a[i])
}

pub open spec fn opt_song_has_no_ids(s: Option<Song>) -> bool {
    s matches Some(x) ==> song_has_no_ids(x)
}

/// The event reply carries no identifier at all.
pub open spec fn event_has_no_ids(e: ExtensionExtraEventResponse) -> bool {
    match e {
        ExtensionExtraEventResponse::RequestedPlaylists(x) => playlists_have_no_ids(x.playlists@),
        ExtensionExtraEventResponse::RequestedPlaylistSongs(x) => songs_have_no_ids(x.songs@),
        ExtensionExtraEventResponse::RequestedSongFromURL(x) => opt_song_has_no_ids(x.song),
        ExtensionExtraEventResponse::RequestedPlaylistFromURL(x) => {
            &&& (x.playlist matches Some(pl) ==> pl.playlist_id is None)
            &&& (x.songs matches Some(v) ==> songs_have_no_ids(v@))
        },
        ExtensionExtraEventResponse::RequestedSearchResult(x) => {
            &&& songs_have_no_ids(x.songs@)
            &&& albums_have_no_ids(x.albums@)
            &&& artists_have_no_ids(x.artists@)
            &&& playlists_have_no_ids(x.playlists@)
        },
        ExtensionExtraEventResponse::RequestedRecommendations(x) => songs_have_no_ids(x.songs@),
        ExtensionExtraEventResponse::RequestedArtistSongs(x) => songs_have_no_ids(x.songs@),
        ExtensionExtraEventResponse::RequestedAlbumSongs(x) => songs_have_no_ids(x.songs@),
        ExtensionExtraEventResponse::RequestedSongFromId(x) => opt_song_has_no_ids(x.song),
        _ => true,
    }
}

/// The command reply carries no identifier at all.
pub open spec fn response_has_no_ids(r: ExtensionCommandResponse) -> bool {
    match r {
        ExtensionCommandResponse::ExtraExtensionEvent(x) => event_has_no_ids(x),
        _ => true,
    }
}

proof fn lemma_song_prefix_irrelevant(p: Seq<char>, q: Seq<char>, a: Song, b: Song)
    requires
        song_rel(p, a, b),
        song_has_no_ids(a),
    ensures
        song_rel(q, a, b),
{
    assert forall|i: int| 0 <= i < a.artists@.len() implies #[trigger] artist_rel(
        q,
        a.artists@[i],
        b.artists@[i],
    ) by {
        assert(artist_rel(p, a.artists@[i], b.artists@[i]));
        assert(a.artists@[i].artist_id is None);
    }
}

proof fn lemma_songs_prefix_irrelevant(p: Seq<char>, q: Seq<char>, a: Seq<Song>, b: Seq<Song>)
    requires
        songs_rel(p, a, b),
        songs_have_no_ids(a),
    ensures
        songs_rel(q, a, b),
{
    assert forall|i: int| 0 <= i < a.len() implies #[trigger] song_rel(q, a[i], b[i]) by {
        assert(song_rel(p, a[i], b[i]));
        assert(song_has_no_ids(a[i]));
        lemma_song_prefix_irrelevant(p, q, a[i], b[i]);
    }
}

proof fn lemma_event_prefix_irrelevant(
    p: Seq<char>,
    q: Seq<char>,
    a: ExtensionExtraEventResponse,
    b: ExtensionExtraEventResponse,
)
    requires
        event_rel(p, a, b),
        event_has_no_ids(a),
    ensures
        event_rel(q, a, b),
{
    match a {
        ExtensionExtraEventResponse::RequestedPlaylists(x) => {
            let y = b->RequestedPlaylists_0;
            assert forall|i: int| 0 <= i < x.playlists@.len() implies #[trigger] playlist_rel(
                q,
                x.playlists@[i],
                y.playlists@[i],
            ) by {
                assert(playlist_rel(p, x.playlists@[i], y.playlists@[i]));
                assert(x.playlists@[i].playlist_id is None);
            }
        },
        ExtensionExtraEventResponse::RequestedPlaylistSongs(x) => {
            lemma_songs_prefix_irrelevant(p, q, x.songs@, b->RequestedPlaylistSongs_0.songs@);
        },
        ExtensionExtraEventResponse::RequestedSongFromURL(x) => {
            if let Some(s) = x.song {
                lemma_song_prefix_irrelevant(p, q, s, b->RequestedSongFromURL_0.song->0);
            }
        },
        ExtensionExtraEventResponse::RequestedPlaylistFromURL(x) => {
            let y = b->RequestedPlaylistFromURL_0;
            if let Some(v) = x.songs {
                lemma_songs_prefix_irrelevant(p, q, v@, y.songs->0@);
            }
        },
        ExtensionExtraEventResponse::RequestedSearchResult(x) => {
            let y = b->RequestedSearchResult_0;
            lemma_songs_prefix_irrelevant(p, q, x.songs@, y.songs@);
            assert forall|i: int| 0 <= i < x.albums@.len() implies #[trigger] album_rel(
                q,
                x.albums@[i],
                y.albums@[i],
            ) by {
                assert(album_rel(p, x.albums@[i], y.albums@[i]));
                assert(x.albums@[i].album_id is None);
            }
            assert forall|i: int| 0 <= i < x.artists@.len() implies #[trigger] artist_rel(
                q,
                x.artists@[i],
                y.artists@[i],
            ) by {
                assert(artist_rel(p, x.artists@[i], y.artists@[i]));
                assert(x.artists@[i].artist_id is None);
            }
            assert forall|i: int| 0 <= i < x.playlists@.len() implies #[trigger] playlist_rel(
                q,
                x.playlists@[i],
                y.playlists@[i],
            ) by {
                assert(playlist_rel(p, x.playlists@[i], y.playlists@[i]));
                assert(x.playlists@[i].playlist_id is None);
            }
        },
        ExtensionExtraEventResponse::RequestedRecommendations(x) => {
            lemma_songs_prefix_irrelevant(p, q, x.songs@, b->RequestedRecommendations_0.songs@);
        },
        ExtensionExtraEventResponse::RequestedArtistSongs(x) => {
            lemma_songs_prefix_irrelevant(p, q, x.songs@, b->RequestedArtistSongs_0.songs@);
        },
        ExtensionExtraEventResponse::RequestedAlbumSongs(x) => {
            lemma_songs_prefix_irrelevant(p, q, x.songs@, b->RequestedAlbumSongs_0.songs@);
        },
        ExtensionExtraEventResponse::RequestedSongFromId(x) => {
            if let Some(s) = x.song {
                lemma_song_prefix_irrelevant(p, q, s, b->RequestedSongFromId_0.song->0);
            }
        },
        _ => {},
    }
}

/// On a reply that carries no identifier, sanitizing twice under the same
/// package gives what sanitizing once gives. (On a reply with an identifier
/// this fails: the identifier is prefixed again, see `lemma_sanitize_twice`.)
pub proof fn lemma_sanitize_idempotent_without_ids(
    package_name: Seq<char>,
    r0: ExtensionCommandResponse,
    r1: ExtensionCommandResponse,
    r2: ExtensionCommandResponse,
)
    requires
        response_has_no_ids(r0),
        sanitized(package_name, r0, r1),
        sanitized(package_name, r1, r2),
    ensures
        sanitized(package_name, r0, r2),
{
    lemma_sanitize_twice(package_name, r0, r1, r2);
    let p = id_prefix(package_name);
    if let ExtensionCommandResponse::ExtraExtensionEvent(x) = r0 {
        lemma_event_prefix_irrelevant(p + p, p, x, r2->ExtraExtensionEvent_0);
    }
}

} // verus!
