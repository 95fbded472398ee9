//! The interface state the player keeps: how song and playlist lists are
//! sorted, and whether the queue is shown.
use vstd::prelude::*;

verus! {

#[derive(PartialEq, Eq, Structural, Clone, Copy, Debug)]
pub enum SongSortByColumns {
    Album,
    Artist,
    Date,
    Genre,
    PlayCount,
    Title,
}

#[derive(PartialEq, Eq, Structural, Clone, Copy, Debug)]
pub enum PlaylistSortByColumns {
    Title,
    Provider,
}

#[derive(PartialEq, Eq, Structural, Clone, Copy, Debug)]
pub struct SongSortBy {
    pub asc: bool,
    pub sort_by: SongSortByColumns,
}

#[derive(PartialEq, Eq, Structural, Clone, Copy, Debug)]
pub struct PlaylistSortBy {
    pub asc: bool,
    pub sort_by: PlaylistSortByColumns,
}

pub struct UiStore {
    song_sort_by: SongSortBy,
    playlist_sort_by: PlaylistSortBy,
    show_queue: bool,
}

impl UiStore {
    pub closed spec fn song_sort(&self) -> SongSortBy {
        self.song_sort_by
    }

    pub closed spec fn playlist_sort(&self) -> PlaylistSortBy {
        self.playlist_sort_by
    }

    pub closed spec fn queue_shown(&self) -> bool {
        self.show_queue
    }

    /// Songs by album and playlists by provider, both ascending; queue
    /// hidden.
    pub fn new() -> (r: Self)
        ensures
            r.song_sort() == (SongSortBy { asc: true, sort_by: SongSortByColumns::Album }),
            r.playlist_sort() == (PlaylistSortBy {
                asc: true,
                sort_by: PlaylistSortByColumns::Provider,
            }),
            !r.queue_shown(),
    {
        UiStore {
            song_sort_by: SongSortBy { asc: true, sort_by: SongSortByColumns::Album },
            playlist_sort_by: PlaylistSortBy { asc: true, sort_by: PlaylistSortByColumns::Provider },
            show_queue: false,
        }
    }

    pub fn set_song_sort_by(&mut self, sort_by: SongSortBy)
        ensures
            final(self).song_sort() == sort_by,
            final(self).playlist_sort() == old(self).playlist_sort(),
            final(self).queue_shown() == old(self).queue_shown(),
    {
        self.song_sort_by = sort_by;
    }

    pub fn get_song_sort_by(&self) -> (r: SongSortBy)
        ensures
            r == self.song_sort(),
    {
        self.song_sort_by
    }

    pub fn set_playlist_sort_by(&mut self, sort_by: PlaylistSortBy)
        ensures
            final(self).playlist_sort() == sort_by,
            final(self).song_sort() == old(self).song_sort(),
            final(self).queue_shown() == old(self).queue_shown(),
    {
        self.playlist_sort_by = sort_by;
    }

    pub fn get_playlist_sort_by(&self) -> (r: PlaylistSortBy)
        ensures
            r == self.playlist_sort(),
    {
        self.playlist_sort_by
    }

    pub fn show_queue(&mut self, show: bool)
        ensures
            final(self).queue_shown() == show,
            final(self).song_sort() == old(self).song_sort(),
            final(self).playlist_sort() == old(self).playlist_sort(),
    {
        self.show_queue = show;
    }

    pub fn get_show_queue(&self) -> (r: bool)
        ensures
            r == self.queue_shown(),
    {
        self.show_queue
    }

    pub fn toggle_show_queue(&mut self)
        ensures
            final(self).queue_shown() == !old(self).queue_shown(),
            final(self).song_sort() == old(self).song_sort(),
            final(self).playlist_sort() == old(self).playlist_sort(),
    {
        self.show_queue = !self.show_queue;
    }
}

} // verus!
