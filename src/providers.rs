//! Records shared by the music providers: paging through results, the
//! status a provider reports, and the pieces of an OAuth login.
use vstd::prelude::*;

verus! {

/// A position in a paged listing: by offset and limit, or by the token a
/// provider handed out.
pub struct Pagination {
    pub limit: u32,
    pub offset: u32,
    pub token: Option<String>,
    pub is_first: bool,
}

impl Pagination {
    /// The first page of `limit` items from `offset`.
    pub fn new_limit(limit: u32, offset: u32) -> (r: Self)
        ensures
            r.limit == limit,
            r.offset == offset,
            r.token is None,
            r.is_first,
    {
        Pagination { limit, offset, token: None, is_first: true }
    }

    /// The first page at a provider's `token`.
    pub fn new_token(token: Option<String>) -> (r: Self)
        ensures
            r.limit == 0,
            r.offset == 0,
            r.token == token,
            r.is_first,
    {
        Pagination { limit: 0, offset: 0, token, is_first: true }
    }

    /// The page after this one: the offset moves on by the limit, and by
    /// one when the limit is zero.
    pub fn next_page(&self) -> (r: Self)
        requires
            self.offset + (if self.limit > 1 {
                self.limit
            } else {
                1
            }) <= u32::MAX,
        ensures
            r.limit == self.limit,
            r.offset == self.offset + (if self.limit > 1 {
                self.limit
            } else {
                1
            }),
            r.token == self.token,
            !r.is_first,
    {
        let step = if self.limit > 1 {
            self.limit
        } else {
            1
        };
        let token = match &self.token {
            Some(t) => Some(t.clone()),
            None => None,
        };
        Pagination { limit: self.limit, offset: self.offset + step, token, is_first: false }
    }

    /// The page after this one, at the provider's next `token`.
    pub fn next_page_wtoken(&self, token: Option<String>) -> (r: Self)
        requires
            self.offset + self.limit <= u32::MAX,
        ensures
            r.limit == self.limit,
            r.offset == self.offset + self.limit,
            r.token == token,
            !r.is_first,
    {
        Pagination { limit: self.limit, offset: self.offset + self.limit, token, is_first: false }
    }
}

/// The login status a provider reports for one account.
pub struct ProviderStatus {
    pub key: String,
    pub name: String,
    pub user_name: Option<String>,
    pub logged_in: bool,
    pub bg_color: String,
    pub account_id: String,
}

/// OAuth tokens of a provider account; `expires_at` is in seconds since the
/// epoch.
pub struct TokenHolder {
    pub access_token: String,
    pub refresh_token: String,
    pub expires_in: u64,
    pub expires_at: i64,
}

/// Endpoints and credentials of an OAuth client.
pub struct OAuthClientArgs {
    pub auth_url: String,
    pub token_url: String,
    pub redirect_url: String,
    pub client_id: String,
    pub client_secret: String,
}

/// What a login asks for: client credentials, scopes and extra query
/// parameters.
pub struct LoginArgs {
    pub client_id: Option<String>,
    pub client_secret: Option<String>,
    pub scopes: Vec<String>,
    pub extra_params: Option<Vec<(String, String)>>,
}

/// Extra information a Spotify artist carries.
pub struct ArtistExtraInfo {
    artist_id: String,
}

impl ArtistExtraInfo {
    pub fn new(artist_id: String) -> (r: Self)
        ensures
            r.artist_id() == artist_id@,
    {
        ArtistExtraInfo { artist_id }
    }

    pub closed spec fn artist_id(&self) -> Seq<char> {
        self.artist_id@
    }
}

/// The Spotify part of an artist's extra information.
pub struct SpotifyExtraInfo {
    spotify: ArtistExtraInfo,
}

impl SpotifyExtraInfo {
    pub fn new(spotify: ArtistExtraInfo) -> (r: Self)
        ensures
            r.artist_id() == spotify.artist_id(),
    {
        SpotifyExtraInfo { spotify }
    }

    pub closed spec fn artist_id(&self) -> Seq<char> {
        self.spotify.artist_id()
    }
}

/// Entities that can be looked up by a search term.
pub trait SearchByTerm: Sized {
    fn search_by_term(term: Option<String>) -> Self;
}

/// Bridge rows between an entity and a song.
pub trait BridgeUtils: Sized {
    fn insert_value(entity: String, song: String) -> Self;
}

} // verus!
